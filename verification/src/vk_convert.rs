//! Translation of the engine's graphics vocabulary into Vulkan values.
//!
//! Each translation is a table: a spec function states the entry for every
//! input, and the executable function is proved to return exactly that entry.
use vstd::prelude::*;
use crate::vk_values as vk;
use crate::gpu;
use crate::gpu::{
    TextureLayout, IndexFormat, ShaderType, CompareFunc, StencilOp, LogicOp, BlendFactor, BlendOp,
    InputRate,
};
use crate::graph_info::{Format, SampleCount, PipelineStage};
use crate::graph_passes::{LoadOp, StoreOp, stage_to_rp};

verus! {

/// The Vulkan format of an engine format. A 24 bit depth format falls back to
/// 32 bit float depth where the device has none; formats without a Vulkan
/// counterpart are undefined.
pub open spec fn vk_format(format: Format, supports_d24: bool) -> i32 {
    match format {
        Format::RGBA8UNorm => vk::FORMAT_R8G8B8A8_UNORM,
        Format::RGBA8Srgb => vk::FORMAT_R8G8B8A8_SRGB,
        Format::R16UNorm => vk::FORMAT_R16_UNORM,
        Format::R16Float => vk::FORMAT_R16_SFLOAT,
        Format::R32Float => vk::FORMAT_R32_SFLOAT,
        Format::R8Unorm => vk::FORMAT_R8_UNORM,
        Format::RG32Float => vk::FORMAT_R32G32_SFLOAT,
        Format::RGB32Float => vk::FORMAT_R32G32B32_SFLOAT,
        Format::RGBA32Float => vk::FORMAT_R32G32B32A32_SFLOAT,
        Format::BGR8UNorm => vk::FORMAT_B8G8R8_UNORM,
        Format::BGRA8UNorm => vk::FORMAT_B8G8R8A8_UNORM,
        Format::D16 => vk::FORMAT_D16_UNORM,
        Format::D16S8 => vk::FORMAT_D16_UNORM_S8_UINT,
        Format::D24 => if supports_d24 { vk::FORMAT_D24_UNORM_S8_UINT } else { vk::FORMAT_D32_SFLOAT },
        Format::D32 => vk::FORMAT_D32_SFLOAT,
        Format::D32S8 => vk::FORMAT_D32_SFLOAT_S8_UINT,
        Format::BC1 => vk::FORMAT_BC1_RGB_UNORM_BLOCK,
        Format::BC1Alpha => vk::FORMAT_BC1_RGBA_UNORM_BLOCK,
        Format::BC2 => vk::FORMAT_BC2_UNORM_BLOCK,
        Format::BC3 => vk::FORMAT_BC3_UNORM_BLOCK,
        Format::RG16UNorm => vk::FORMAT_R16G16_UNORM,
        Format::RG8UNorm => vk::FORMAT_R8G8_UNORM,
        Format::R32UInt => vk::FORMAT_R32_UINT,
        Format::RG16Float => vk::FORMAT_R16G16_SFLOAT,
        Format::RGBA16Float => vk::FORMAT_R16G16B16A16_SFLOAT,
        Format::R11G11B10Float => vk::FORMAT_B10G11R11_UFLOAT_PACK32,
        Format::RG16UInt => vk::FORMAT_R16G16_UINT,
        Format::R16UInt => vk::FORMAT_R16_UINT,
        Format::R16SNorm => vk::FORMAT_R16_SNORM,
        Format::Unknown => vk::FORMAT_UNDEFINED,
    }
}

pub fn format_to_vk(format: Format, supports_d24: bool) -> (r: i32)
    ensures
        r == vk_format(format, supports_d24),
{
    match format {
        Format::RGBA8UNorm => vk::FORMAT_R8G8B8A8_UNORM,
        Format::RGBA8Srgb => vk::FORMAT_R8G8B8A8_SRGB,
        Format::R16UNorm => vk::FORMAT_R16_UNORM,
        Format::R16Float => vk::FORMAT_R16_SFLOAT,
        Format::R32Float => vk::FORMAT_R32_SFLOAT,
        Format::R8Unorm => vk::FORMAT_R8_UNORM,
        Format::RG32Float => vk::FORMAT_R32G32_SFLOAT,
        Format::RGB32Float => vk::FORMAT_R32G32B32_SFLOAT,
        Format::RGBA32Float => vk::FORMAT_R32G32B32A32_SFLOAT,
        Format::BGR8UNorm => vk::FORMAT_B8G8R8_UNORM,
        Format::BGRA8UNorm => vk::FORMAT_B8G8R8A8_UNORM,
        Format::D16 => vk::FORMAT_D16_UNORM,
        Format::D16S8 => vk::FORMAT_D16_UNORM_S8_UINT,
        Format::D24 => {
            if supports_d24 {
                vk::FORMAT_D24_UNORM_S8_UINT
            } else {
                vk::FORMAT_D32_SFLOAT
            }
        },
        Format::D32 => vk::FORMAT_D32_SFLOAT,
        Format::D32S8 => vk::FORMAT_D32_SFLOAT_S8_UINT,
        Format::BC1 => vk::FORMAT_BC1_RGB_UNORM_BLOCK,
        Format::BC1Alpha => vk::FORMAT_BC1_RGBA_UNORM_BLOCK,
        Format::BC2 => vk::FORMAT_BC2_UNORM_BLOCK,
        Format::BC3 => vk::FORMAT_BC3_UNORM_BLOCK,
        Format::RG16UNorm => vk::FORMAT_R16G16_UNORM,
        Format::RG8UNorm => vk::FORMAT_R8G8_UNORM,
        Format::R32UInt => vk::FORMAT_R32_UINT,
        Format::RG16Float => vk::FORMAT_R16G16_SFLOAT,
        Format::RGBA16Float => vk::FORMAT_R16G16B16A16_SFLOAT,
        Format::R11G11B10Float => vk::FORMAT_B10G11R11_UFLOAT_PACK32,
        Format::RG16UInt => vk::FORMAT_R16G16_UINT,
        Format::R16UInt => vk::FORMAT_R16_UINT,
        Format::R16SNorm => vk::FORMAT_R16_SNORM,
        Format::Unknown => vk::FORMAT_UNDEFINED,
    }
}

/// A Vulkan surface format, back in the engine's terms. Swapchains are only
/// made with these two formats.
pub open spec fn is_surface_format(format: i32) -> bool {
    format == vk::FORMAT_R8G8B8A8_UNORM || format == vk::FORMAT_B8G8R8A8_UNORM
}

pub fn surface_vk_format_to_core(format: i32) -> (r: Format)
    requires
        is_surface_format(format),
    ensures
        format == vk::FORMAT_R8G8B8A8_UNORM ==> r == Format::RGBA8UNorm,
        format == vk::FORMAT_B8G8R8A8_UNORM ==> r == Format::BGRA8UNorm,
{
    if format == vk::FORMAT_R8G8B8A8_UNORM {
        Format::RGBA8UNorm
    } else {
        Format::BGRA8UNorm
    }
}

pub open spec fn vk_image_layout(layout: TextureLayout) -> i32 {
    match layout {
        TextureLayout::CopyDst => vk::IMAGE_LAYOUT_TRANSFER_DST_OPTIMAL,
        TextureLayout::CopySrc => vk::IMAGE_LAYOUT_TRANSFER_SRC_OPTIMAL,
        TextureLayout::DepthStencilRead => vk::IMAGE_LAYOUT_DEPTH_STENCIL_READ_ONLY_OPTIMAL,
        TextureLayout::DepthStencilReadWrite => vk::IMAGE_LAYOUT_DEPTH_STENCIL_ATTACHMENT_OPTIMAL,
        TextureLayout::General => vk::IMAGE_LAYOUT_GENERAL,
        TextureLayout::Sampled => vk::IMAGE_LAYOUT_SHADER_READ_ONLY_OPTIMAL,
        TextureLayout::Storage => vk::IMAGE_LAYOUT_GENERAL,
        TextureLayout::RenderTarget => vk::IMAGE_LAYOUT_COLOR_ATTACHMENT_OPTIMAL,
        TextureLayout::ResolveSrc => vk::IMAGE_LAYOUT_TRANSFER_SRC_OPTIMAL,
        TextureLayout::ResolveDst => vk::IMAGE_LAYOUT_TRANSFER_DST_OPTIMAL,
        TextureLayout::Undefined => vk::IMAGE_LAYOUT_UNDEFINED,
        TextureLayout::Present => vk::IMAGE_LAYOUT_PRESENT_SRC_KHR,
    }
}

pub fn texture_layout_to_image_layout(layout: TextureLayout) -> (r: i32)
    ensures
        r == vk_image_layout(layout),
{
    match layout {
        TextureLayout::CopyDst => vk::IMAGE_LAYOUT_TRANSFER_DST_OPTIMAL,
        TextureLayout::CopySrc => vk::IMAGE_LAYOUT_TRANSFER_SRC_OPTIMAL,
        TextureLayout::DepthStencilRead => vk::IMAGE_LAYOUT_DEPTH_STENCIL_READ_ONLY_OPTIMAL,
        TextureLayout::DepthStencilReadWrite => vk::IMAGE_LAYOUT_DEPTH_STENCIL_ATTACHMENT_OPTIMAL,
        TextureLayout::General => vk::IMAGE_LAYOUT_GENERAL,
        TextureLayout::Sampled => vk::IMAGE_LAYOUT_SHADER_READ_ONLY_OPTIMAL,
        TextureLayout::Storage => vk::IMAGE_LAYOUT_GENERAL,
        TextureLayout::RenderTarget => vk::IMAGE_LAYOUT_COLOR_ATTACHMENT_OPTIMAL,
        TextureLayout::ResolveSrc => vk::IMAGE_LAYOUT_TRANSFER_SRC_OPTIMAL,
        TextureLayout::ResolveDst => vk::IMAGE_LAYOUT_TRANSFER_DST_OPTIMAL,
        TextureLayout::Undefined => vk::IMAGE_LAYOUT_UNDEFINED,
        TextureLayout::Present => vk::IMAGE_LAYOUT_PRESENT_SRC_KHR,
    }
}

/// The aspects of an image in a format: depth and stencil as the format holds
/// them, color where it holds neither.
pub open spec fn vk_aspect_mask(format: Format) -> u32 {
    if format.spec_is_depth() && format.spec_is_stencil() {
        vk::IMAGE_ASPECT_DEPTH | vk::IMAGE_ASPECT_STENCIL
    } else if format.spec_is_depth() {
        vk::IMAGE_ASPECT_DEPTH
    } else if format.spec_is_stencil() {
        vk::IMAGE_ASPECT_STENCIL
    } else {
        vk::IMAGE_ASPECT_COLOR
    }
}

pub fn aspect_mask_from_format(format: Format) -> (r: u32)
    ensures
        r == vk_aspect_mask(format),
{
    let stencil = format.is_stencil();
    let depth = format.is_depth();
    if depth && stencil {
        vk::IMAGE_ASPECT_DEPTH | vk::IMAGE_ASPECT_STENCIL
    } else if depth {
        vk::IMAGE_ASPECT_DEPTH
    } else if stencil {
        vk::IMAGE_ASPECT_STENCIL
    } else {
        vk::IMAGE_ASPECT_COLOR
    }
}

pub open spec fn vk_index_type(format: IndexFormat) -> i32 {
    match format {
        IndexFormat::U16 => vk::INDEX_TYPE_UINT16,
        IndexFormat::U32 => vk::INDEX_TYPE_UINT32,
    }
}

pub fn index_format_to_vk(format: IndexFormat) -> (r: i32)
    ensures
        r == vk_index_type(format),
{
    match format {
        IndexFormat::U16 => vk::INDEX_TYPE_UINT16,
        IndexFormat::U32 => vk::INDEX_TYPE_UINT32,
    }
}

pub open spec fn vk_input_rate(rate: InputRate) -> i32 {
    match rate {
        InputRate::PerVertex => vk::VERTEX_INPUT_RATE_VERTEX,
        InputRate::PerInstance => vk::VERTEX_INPUT_RATE_INSTANCE,
    }
}

pub fn input_rate_to_vk(input_rate: InputRate) -> (r: i32)
    ensures
        r == vk_input_rate(input_rate),
{
    match input_rate {
        InputRate::PerVertex => vk::VERTEX_INPUT_RATE_VERTEX,
        InputRate::PerInstance => vk::VERTEX_INPUT_RATE_INSTANCE,
    }
}

pub open spec fn vk_shader_stage(shader_type: ShaderType) -> u32 {
    match shader_type {
        ShaderType::VertexShader => vk::SHADER_STAGE_VERTEX,
        ShaderType::FragmentShader => vk::SHADER_STAGE_FRAGMENT,
        ShaderType::GeometryShader => vk::SHADER_STAGE_GEOMETRY,
        ShaderType::TessellationControlShader => vk::SHADER_STAGE_TESSELLATION_CONTROL,
        ShaderType::TessellationEvaluationShader => vk::SHADER_STAGE_TESSELLATION_EVALUATION,
        ShaderType::ComputeShader => vk::SHADER_STAGE_COMPUTE,
        ShaderType::RayClosestHit => vk::SHADER_STAGE_CLOSEST_HIT_KHR,
        ShaderType::RayGen => vk::SHADER_STAGE_RAYGEN_KHR,
        ShaderType::RayMiss => vk::SHADER_STAGE_MISS_KHR,
    }
}

pub fn shader_type_to_vk(shader_type: ShaderType) -> (r: u32)
    ensures
        r == vk_shader_stage(shader_type),
{
    match shader_type {
        ShaderType::VertexShader => vk::SHADER_STAGE_VERTEX,
        ShaderType::FragmentShader => vk::SHADER_STAGE_FRAGMENT,
        ShaderType::GeometryShader => vk::SHADER_STAGE_GEOMETRY,
        ShaderType::TessellationControlShader => vk::SHADER_STAGE_TESSELLATION_CONTROL,
        ShaderType::TessellationEvaluationShader => vk::SHADER_STAGE_TESSELLATION_EVALUATION,
        ShaderType::ComputeShader => vk::SHADER_STAGE_COMPUTE,
        ShaderType::RayClosestHit => vk::SHADER_STAGE_CLOSEST_HIT_KHR,
        ShaderType::RayGen => vk::SHADER_STAGE_RAYGEN_KHR,
        ShaderType::RayMiss => vk::SHADER_STAGE_MISS_KHR,
    }
}

pub open spec fn vk_sample_count(samples: SampleCount) -> u32 {
    match samples {
        SampleCount::Samples1 => vk::SAMPLE_COUNT_TYPE_1,
        SampleCount::Samples2 => vk::SAMPLE_COUNT_TYPE_2,
        SampleCount::Samples4 => vk::SAMPLE_COUNT_TYPE_4,
        SampleCount::Samples8 => vk::SAMPLE_COUNT_TYPE_8,
    }
}

pub fn samples_to_vk(samples: SampleCount) -> (r: u32)
    ensures
        r == vk_sample_count(samples),
{
    match samples {
        SampleCount::Samples1 => vk::SAMPLE_COUNT_TYPE_1,
        SampleCount::Samples2 => vk::SAMPLE_COUNT_TYPE_2,
        SampleCount::Samples4 => vk::SAMPLE_COUNT_TYPE_4,
        SampleCount::Samples8 => vk::SAMPLE_COUNT_TYPE_8,
    }
}

pub open spec fn vk_compare_op(compare_func: CompareFunc) -> i32 {
    match compare_func {
        CompareFunc::Always => vk::COMPARE_OP_ALWAYS,
        CompareFunc::NotEqual => vk::COMPARE_OP_NOT_EQUAL,
        CompareFunc::Never => vk::COMPARE_OP_NEVER,
        CompareFunc::Less => vk::COMPARE_OP_LESS,
        CompareFunc::LessEqual => vk::COMPARE_OP_LESS_OR_EQUAL,
        CompareFunc::Equal => vk::COMPARE_OP_EQUAL,
        CompareFunc::GreaterEqual => vk::COMPARE_OP_GREATER_OR_EQUAL,
        CompareFunc::Greater => vk::COMPARE_OP_GREATER,
    }
}

pub fn compare_func_to_vk(compare_func: CompareFunc) -> (r: i32)
    ensures
        r == vk_compare_op(compare_func),
{
    match compare_func {
        CompareFunc::Always => vk::COMPARE_OP_ALWAYS,
        CompareFunc::NotEqual => vk::COMPARE_OP_NOT_EQUAL,
        CompareFunc::Never => vk::COMPARE_OP_NEVER,
        CompareFunc::Less => vk::COMPARE_OP_LESS,
        CompareFunc::LessEqual => vk::COMPARE_OP_LESS_OR_EQUAL,
        CompareFunc::Equal => vk::COMPARE_OP_EQUAL,
        CompareFunc::GreaterEqual => vk::COMPARE_OP_GREATER_OR_EQUAL,
        CompareFunc::Greater => vk::COMPARE_OP_GREATER,
    }
}

/// Increasing and decreasing wrap around; the clamping variants saturate.
pub open spec fn vk_stencil_op(stencil_op: StencilOp) -> i32 {
    match stencil_op {
        StencilOp::Decrease => vk::STENCIL_OP_DECREMENT_AND_WRAP,
        StencilOp::Increase => vk::STENCIL_OP_INCREMENT_AND_WRAP,
        StencilOp::DecreaseClamp => vk::STENCIL_OP_DECREMENT_AND_CLAMP,
        StencilOp::IncreaseClamp => vk::STENCIL_OP_INCREMENT_AND_CLAMP,
        StencilOp::Invert => vk::STENCIL_OP_INVERT,
        StencilOp::Keep => vk::STENCIL_OP_KEEP,
        StencilOp::Replace => vk::STENCIL_OP_REPLACE,
        StencilOp::Zero => vk::STENCIL_OP_ZERO,
    }
}

pub fn stencil_op_to_vk(stencil_op: StencilOp) -> (r: i32)
    ensures
        r == vk_stencil_op(stencil_op),
{
    match stencil_op {
        StencilOp::Decrease => vk::STENCIL_OP_DECREMENT_AND_WRAP,
        StencilOp::Increase => vk::STENCIL_OP_INCREMENT_AND_WRAP,
        StencilOp::DecreaseClamp => vk::STENCIL_OP_DECREMENT_AND_CLAMP,
        StencilOp::IncreaseClamp => vk::STENCIL_OP_INCREMENT_AND_CLAMP,
        StencilOp::Invert => vk::STENCIL_OP_INVERT,
        StencilOp::Keep => vk::STENCIL_OP_KEEP,
        StencilOp::Replace => vk::STENCIL_OP_REPLACE,
        StencilOp::Zero => vk::STENCIL_OP_ZERO,
    }
}

pub open spec fn vk_logic_op(logic_op: LogicOp) -> i32 {
    match logic_op {
        LogicOp::And => vk::LOGIC_OP_AND,
        LogicOp::AndInverted => vk::LOGIC_OP_AND_INVERTED,
        LogicOp::AndReversed => vk::LOGIC_OP_AND_REVERSE,
        LogicOp::Clear => vk::LOGIC_OP_CLEAR,
        LogicOp::Copy => vk::LOGIC_OP_COPY,
        LogicOp::CopyInverted => vk::LOGIC_OP_COPY_INVERTED,
        LogicOp::Equivalent => vk::LOGIC_OP_EQUIVALENT,
        LogicOp::Invert => vk::LOGIC_OP_INVERT,
        LogicOp::Nand => vk::LOGIC_OP_NAND,
        LogicOp::Noop => vk::LOGIC_OP_NO_OP,
        LogicOp::Nor => vk::LOGIC_OP_NOR,
        LogicOp::Or => vk::LOGIC_OP_OR,
        LogicOp::OrInverted => vk::LOGIC_OP_OR_INVERTED,
        LogicOp::OrReverse => vk::LOGIC_OP_OR_REVERSE,
        LogicOp::SetAll => vk::LOGIC_OP_SET,
        LogicOp::Xor => vk::LOGIC_OP_XOR,
    }
}

pub fn logic_op_to_vk(logic_op: LogicOp) -> (r: i32)
    ensures
        r == vk_logic_op(logic_op),
{
    match logic_op {
        LogicOp::And => vk::LOGIC_OP_AND,
        LogicOp::AndInverted => vk::LOGIC_OP_AND_INVERTED,
        LogicOp::AndReversed => vk::LOGIC_OP_AND_REVERSE,
        LogicOp::Clear => vk::LOGIC_OP_CLEAR,
        LogicOp::Copy => vk::LOGIC_OP_COPY,
        LogicOp::CopyInverted => vk::LOGIC_OP_COPY_INVERTED,
        LogicOp::Equivalent => vk::LOGIC_OP_EQUIVALENT,
        LogicOp::Invert => vk::LOGIC_OP_INVERT,
        LogicOp::Nand => vk::LOGIC_OP_NAND,
        LogicOp::Noop => vk::LOGIC_OP_NO_OP,
        LogicOp::Nor => vk::LOGIC_OP_NOR,
        LogicOp::Or => vk::LOGIC_OP_OR,
        LogicOp::OrInverted => vk::LOGIC_OP_OR_INVERTED,
        LogicOp::OrReverse => vk::LOGIC_OP_OR_REVERSE,
        LogicOp::SetAll => vk::LOGIC_OP_SET,
        LogicOp::Xor => vk::LOGIC_OP_XOR,
    }
}

pub open spec fn vk_blend_factor(blend_factor: BlendFactor) -> i32 {
    match blend_factor {
        BlendFactor::ConstantColor => vk::BLEND_FACTOR_CONSTANT_COLOR,
        BlendFactor::DstAlpha => vk::BLEND_FACTOR_DST_ALPHA,
        BlendFactor::DstColor => vk::BLEND_FACTOR_DST_COLOR,
        BlendFactor::One => vk::BLEND_FACTOR_ONE,
        BlendFactor::OneMinusConstantColor => vk::BLEND_FACTOR_ONE_MINUS_CONSTANT_COLOR,
        BlendFactor::OneMinusDstAlpha => vk::BLEND_FACTOR_ONE_MINUS_DST_ALPHA,
        BlendFactor::OneMinusDstColor => vk::BLEND_FACTOR_ONE_MINUS_DST_COLOR,
        BlendFactor::OneMinusSrc1Alpha => vk::BLEND_FACTOR_ONE_MINUS_SRC1_ALPHA,
        BlendFactor::OneMinusSrc1Color => vk::BLEND_FACTOR_ONE_MINUS_SRC1_COLOR,
        BlendFactor::OneMinusSrcColor => vk::BLEND_FACTOR_ONE_MINUS_SRC_COLOR,
        BlendFactor::Src1Alpha => vk::BLEND_FACTOR_SRC1_ALPHA,
        BlendFactor::Src1Color => vk::BLEND_FACTOR_SRC1_COLOR,
        BlendFactor::SrcAlphaSaturate => vk::BLEND_FACTOR_SRC_ALPHA_SATURATE,
        BlendFactor::SrcColor => vk::BLEND_FACTOR_SRC_COLOR,
        BlendFactor::Zero => vk::BLEND_FACTOR_ZERO,
        BlendFactor::SrcAlpha => vk::BLEND_FACTOR_SRC_ALPHA,
        BlendFactor::OneMinusSrcAlpha => vk::BLEND_FACTOR_ONE_MINUS_SRC_ALPHA,
    }
}

pub fn blend_factor_to_vk(blend_factor: BlendFactor) -> (r: i32)
    ensures
        r == vk_blend_factor(blend_factor),
{
    match blend_factor {
        BlendFactor::ConstantColor => vk::BLEND_FACTOR_CONSTANT_COLOR,
        BlendFactor::DstAlpha => vk::BLEND_FACTOR_DST_ALPHA,
        BlendFactor::DstColor => vk::BLEND_FACTOR_DST_COLOR,
        BlendFactor::One => vk::BLEND_FACTOR_ONE,
        BlendFactor::OneMinusConstantColor => vk::BLEND_FACTOR_ONE_MINUS_CONSTANT_COLOR,
        BlendFactor::OneMinusDstAlpha => vk::BLEND_FACTOR_ONE_MINUS_DST_ALPHA,
        BlendFactor::OneMinusDstColor => vk::BLEND_FACTOR_ONE_MINUS_DST_COLOR,
        BlendFactor::OneMinusSrc1Alpha => vk::BLEND_FACTOR_ONE_MINUS_SRC1_ALPHA,
        BlendFactor::OneMinusSrc1Color => vk::BLEND_FACTOR_ONE_MINUS_SRC1_COLOR,
        BlendFactor::OneMinusSrcColor => vk::BLEND_FACTOR_ONE_MINUS_SRC_COLOR,
        BlendFactor::Src1Alpha => vk::BLEND_FACTOR_SRC1_ALPHA,
        BlendFactor::Src1Color => vk::BLEND_FACTOR_SRC1_COLOR,
        BlendFactor::SrcAlphaSaturate => vk::BLEND_FACTOR_SRC_ALPHA_SATURATE,
        BlendFactor::SrcColor => vk::BLEND_FACTOR_SRC_COLOR,
        BlendFactor::Zero => vk::BLEND_FACTOR_ZERO,
        BlendFactor::SrcAlpha => vk::BLEND_FACTOR_SRC_ALPHA,
        BlendFactor::OneMinusSrcAlpha => vk::BLEND_FACTOR_ONE_MINUS_SRC_ALPHA,
    }
}

pub open spec fn vk_blend_op(blend_op: BlendOp) -> i32 {
    match blend_op {
        BlendOp::Add => vk::BLEND_OP_ADD,
        BlendOp::Max => vk::BLEND_OP_MAX,
        BlendOp::Min => vk::BLEND_OP_MIN,
        BlendOp::ReverseSubtract => vk::BLEND_OP_REVERSE_SUBTRACT,
        BlendOp::Subtract => vk::BLEND_OP_SUBTRACT,
    }
}

pub fn blend_op_to_vk(blend_op: BlendOp) -> (r: i32)
    ensures
        r == vk_blend_op(blend_op),
{
    match blend_op {
        BlendOp::Add => vk::BLEND_OP_ADD,
        BlendOp::Max => vk::BLEND_OP_MAX,
        BlendOp::Min => vk::BLEND_OP_MIN,
        BlendOp::ReverseSubtract => vk::BLEND_OP_REVERSE_SUBTRACT,
        BlendOp::Subtract => vk::BLEND_OP_SUBTRACT,
    }
}

pub open spec fn vk_store_op(store: StoreOp) -> i32 {
    match store {
        StoreOp::DontCare => vk::ATTACHMENT_STORE_OP_DONT_CARE,
        StoreOp::Store => vk::ATTACHMENT_STORE_OP_STORE,
    }
}

pub fn store_action_to_vk(store_action: StoreOp) -> (r: i32)
    ensures
        r == vk_store_op(store_action),
{
    match store_action {
        StoreOp::DontCare => vk::ATTACHMENT_STORE_OP_DONT_CARE,
        StoreOp::Store => vk::ATTACHMENT_STORE_OP_STORE,
    }
}

pub open spec fn vk_load_op(load: LoadOp) -> i32 {
    match load {
        LoadOp::DontCare => vk::ATTACHMENT_LOAD_OP_DONT_CARE,
        LoadOp::Load => vk::ATTACHMENT_LOAD_OP_LOAD,
        LoadOp::Clear => vk::ATTACHMENT_LOAD_OP_CLEAR,
    }
}

pub fn load_action_to_vk(load_action: LoadOp) -> (r: i32)
    ensures
        r == vk_load_op(load_action),
{
    match load_action {
        LoadOp::DontCare => vk::ATTACHMENT_LOAD_OP_DONT_CARE,
        LoadOp::Load => vk::ATTACHMENT_LOAD_OP_LOAD,
        LoadOp::Clear => vk::ATTACHMENT_LOAD_OP_CLEAR,
    }
}

/// The pipeline stages of a graph pipeline stage. Fragment shaders are waited
/// for at the vertex shader stage, the earlier of the two.
pub open spec fn vk_pipeline_stage(stage: PipelineStage) -> u32 {
    match stage {
        PipelineStage::ComputeShader => vk::PIPELINE_STAGE_COMPUTE_SHADER,
        PipelineStage::VertexShader => vk::PIPELINE_STAGE_VERTEX_SHADER,
        PipelineStage::FragmentShader => vk::PIPELINE_STAGE_VERTEX_SHADER,
        PipelineStage::GraphicsShaders => vk::PIPELINE_STAGE_VERTEX_SHADER | vk::PIPELINE_STAGE_FRAGMENT_SHADER,
        PipelineStage::Copy => vk::PIPELINE_STAGE_TRANSFER,
    }
}

pub fn pipeline_stage_to_vk(pipeline_stage: PipelineStage) -> (r: u32)
    ensures
        r == vk_pipeline_stage(pipeline_stage),
{
    match pipeline_stage {
        PipelineStage::ComputeShader => vk::PIPELINE_STAGE_COMPUTE_SHADER,
        PipelineStage::VertexShader => vk::PIPELINE_STAGE_VERTEX_SHADER,
        PipelineStage::FragmentShader => vk::PIPELINE_STAGE_VERTEX_SHADER,
        PipelineStage::GraphicsShaders => vk::PIPELINE_STAGE_VERTEX_SHADER | vk::PIPELINE_STAGE_FRAGMENT_SHADER,
        PipelineStage::Copy => vk::PIPELINE_STAGE_TRANSFER,
    }
}

/// The render pass stage of a graph pipeline stage; only the stages of a
/// graphics pipeline have one.
pub fn pipeline_stage_to_rp(pipeline_stage: PipelineStage) -> (r: u32)
    requires
        stage_to_rp(pipeline_stage) is Some,
    ensures
        stage_to_rp(pipeline_stage) == Some(r),
{
    match pipeline_stage {
        PipelineStage::VertexShader => crate::graph_passes::RENDER_PASS_STAGE_VERTEX,
        PipelineStage::FragmentShader => crate::graph_passes::RENDER_PASS_STAGE_FRAGMENT,
        _ => crate::graph_passes::RENDER_PASS_STAGE_BOTH,
    }
}

/// Every access that writes memory.
pub open spec fn vk_write_access_mask() -> u32 {
    vk::ACCESS_HOST_WRITE | vk::ACCESS_MEMORY_WRITE | vk::ACCESS_SHADER_WRITE | vk::ACCESS_TRANSFER_WRITE
        | vk::ACCESS_COLOR_ATTACHMENT_WRITE
}

pub fn write_access_mask() -> (r: u32)
    ensures
        r == vk_write_access_mask(),
{
    vk::ACCESS_HOST_WRITE | vk::ACCESS_MEMORY_WRITE | vk::ACCESS_SHADER_WRITE | vk::ACCESS_TRANSFER_WRITE
        | vk::ACCESS_COLOR_ATTACHMENT_WRITE
}


/// `flags` holds every bit of `flag`.
#[verifier::opaque]
pub open spec fn has_flag(flags: u32, flag: u32) -> bool {
    flags & flag == flag
}

/// `acc` with the bits `bits` added where `cond` holds.
#[verifier::opaque]
pub open spec fn add_if(acc: u64, cond: bool, bits: u64) -> u64 {
    if cond { acc | bits } else { acc }
}

/// `acc` with the bits `bits` added where `cond` holds.
pub open spec fn add_if32(acc: u32, cond: bool, bits: u32) -> u32 {
    if cond { acc | bits } else { acc }
}

fn has_flag_exec(flags: u32, flag: u32) -> (b: bool)
    ensures
        b == has_flag(flags, flag),
{
    reveal(has_flag);
    flags & flag == flag
}

fn add_if_exec(acc: u64, cond: bool, bits: u64) -> (r: u64)
    ensures
        r == add_if(acc, cond, bits),
{
    reveal(add_if);
    if cond { acc | bits } else { acc }
}

fn add_if32_exec(acc: u32, cond: bool, bits: u32) -> (r: u32)
    ensures
        r == add_if32(acc, cond, bits),
{
    if cond { acc | bits } else { acc }
}

/// The Vulkan pipeline stages of the engine's barrier synchronisation scopes:
/// each scope in `sync` adds its stage.
pub open spec fn vk_barrier_stages(sync: u32) -> u64 {
    let s = vk::PIPELINE_STAGE2_NONE;
    let s = add_if(s, has_flag(sync, gpu::BARRIER_SYNC_COMPUTE_SHADER), vk::PIPELINE_STAGE2_COMPUTE_SHADER);
    let s = add_if(s, has_flag(sync, gpu::BARRIER_SYNC_COPY), vk::PIPELINE_STAGE2_TRANSFER);
    let s = add_if(s, has_flag(sync, gpu::BARRIER_SYNC_EARLY_DEPTH), vk::PIPELINE_STAGE2_EARLY_FRAGMENT_TESTS);
    let s = add_if(s, has_flag(sync, gpu::BARRIER_SYNC_FRAGMENT_SHADER), vk::PIPELINE_STAGE2_FRAGMENT_SHADER);
    let s = add_if(s, has_flag(sync, gpu::BARRIER_SYNC_INDIRECT), vk::PIPELINE_STAGE2_DRAW_INDIRECT);
    let s = add_if(s, has_flag(sync, gpu::BARRIER_SYNC_LATE_DEPTH), vk::PIPELINE_STAGE2_LATE_FRAGMENT_TESTS);
    let s = add_if(s, has_flag(sync, gpu::BARRIER_SYNC_RENDER_TARGET), vk::PIPELINE_STAGE2_COLOR_ATTACHMENT_OUTPUT);
    let s = add_if(s, has_flag(sync, gpu::BARRIER_SYNC_RESOLVE), vk::PIPELINE_STAGE2_RESOLVE);
    let s = add_if(s, has_flag(sync, gpu::BARRIER_SYNC_VERTEX_INPUT), vk::PIPELINE_STAGE2_VERTEX_ATTRIBUTE_INPUT);
    let s = add_if(s, has_flag(sync, gpu::BARRIER_SYNC_INDEX_INPUT), vk::PIPELINE_STAGE2_INDEX_INPUT);
    let s = add_if(s, has_flag(sync, gpu::BARRIER_SYNC_VERTEX_SHADER), vk::PIPELINE_STAGE2_VERTEX_SHADER);
    let s = add_if(s, has_flag(sync, gpu::BARRIER_SYNC_HOST), vk::PIPELINE_STAGE2_HOST);
    let s = add_if(s, has_flag(sync, gpu::BARRIER_SYNC_ACCELERATION_STRUCTURE_BUILD), vk::PIPELINE_STAGE2_ACCELERATION_STRUCTURE_BUILD_KHR);
    let s = add_if(s, has_flag(sync, gpu::BARRIER_SYNC_RAY_TRACING), vk::PIPELINE_STAGE2_RAY_TRACING_SHADER_KHR);
    s
}

/// Law: the stages of a union of scopes are the union of their stages, and no
/// scope has no stage.
pub proof fn law_barrier_stages_distribute(a: u32, b: u32)
    ensures
        vk_barrier_stages(a | b) == vk_barrier_stages(a) | vk_barrier_stages(b),
        vk_barrier_stages(0) == vk::PIPELINE_STAGE2_NONE,
{
    reveal(has_flag);
    reveal(add_if);
    assert(vk_barrier_stages(a | b) == vk_barrier_stages(a) | vk_barrier_stages(b)) by (bit_vector);
    assert(vk_barrier_stages(0) == vk::PIPELINE_STAGE2_NONE) by (bit_vector);
}

pub fn barrier_sync_to_stage(sync: u32) -> (r: u64)
    ensures
        r == vk_barrier_stages(sync),
{
    let mut stages: u64 = vk::PIPELINE_STAGE2_NONE;
    stages = add_if_exec(
        stages,
        has_flag_exec(sync, gpu::BARRIER_SYNC_COMPUTE_SHADER),
        vk::PIPELINE_STAGE2_COMPUTE_SHADER,
    );
    stages = add_if_exec(
        stages,
        has_flag_exec(sync, gpu::BARRIER_SYNC_COPY),
        vk::PIPELINE_STAGE2_TRANSFER,
    );
    stages = add_if_exec(
        stages,
        has_flag_exec(sync, gpu::BARRIER_SYNC_EARLY_DEPTH),
        vk::PIPELINE_STAGE2_EARLY_FRAGMENT_TESTS,
    );
    stages = add_if_exec(
        stages,
        has_flag_exec(sync, gpu::BARRIER_SYNC_FRAGMENT_SHADER),
        vk::PIPELINE_STAGE2_FRAGMENT_SHADER,
    );
    stages = add_if_exec(
        stages,
        has_flag_exec(sync, gpu::BARRIER_SYNC_INDIRECT),
        vk::PIPELINE_STAGE2_DRAW_INDIRECT,
    );
    stages = add_if_exec(
        stages,
        has_flag_exec(sync, gpu::BARRIER_SYNC_LATE_DEPTH),
        vk::PIPELINE_STAGE2_LATE_FRAGMENT_TESTS,
    );
    stages = add_if_exec(
        stages,
        has_flag_exec(sync, gpu::BARRIER_SYNC_RENDER_TARGET),
        vk::PIPELINE_STAGE2_COLOR_ATTACHMENT_OUTPUT,
    );
    stages = add_if_exec(
        stages,
        has_flag_exec(sync, gpu::BARRIER_SYNC_RESOLVE),
        vk::PIPELINE_STAGE2_RESOLVE,
    );
    stages = add_if_exec(
        stages,
        has_flag_exec(sync, gpu::BARRIER_SYNC_VERTEX_INPUT),
        vk::PIPELINE_STAGE2_VERTEX_ATTRIBUTE_INPUT,
    );
    stages = add_if_exec(
        stages,
        has_flag_exec(sync, gpu::BARRIER_SYNC_INDEX_INPUT),
        vk::PIPELINE_STAGE2_INDEX_INPUT,
    );
    stages = add_if_exec(
        stages,
        has_flag_exec(sync, gpu::BARRIER_SYNC_VERTEX_SHADER),
        vk::PIPELINE_STAGE2_VERTEX_SHADER,
    );
    stages = add_if_exec(
        stages,
        has_flag_exec(sync, gpu::BARRIER_SYNC_HOST),
        vk::PIPELINE_STAGE2_HOST,
    );
    stages = add_if_exec(
        stages,
        has_flag_exec(sync, gpu::BARRIER_SYNC_ACCELERATION_STRUCTURE_BUILD),
        vk::PIPELINE_STAGE2_ACCELERATION_STRUCTURE_BUILD_KHR,
    );
    stages = add_if_exec(
        stages,
        has_flag_exec(sync, gpu::BARRIER_SYNC_RAY_TRACING),
        vk::PIPELINE_STAGE2_RAY_TRACING_SHADER_KHR,
    );
    stages
}

/// The Vulkan access flags of the engine's barrier accesses: each access in
/// `access` adds its flag; resolves are transfers.
pub open spec fn vk_barrier_access(access: u32) -> u64 {
    vk_barrier_access_rest(access, vk_barrier_access_first(access))
}

/// The flags of the first half of the accesses.
pub open spec fn vk_barrier_access_first(access: u32) -> u64 {
    let s: u64 = 0;
    let s = add_if(s, has_flag(access, gpu::BARRIER_ACCESS_INDEX_READ), vk::ACCESS2_INDEX_READ);
    let s = add_if(s, has_flag(access, gpu::BARRIER_ACCESS_INDIRECT_READ), vk::ACCESS2_INDIRECT_COMMAND_READ);
    let s = add_if(s, has_flag(access, gpu::BARRIER_ACCESS_VERTEX_INPUT_READ), vk::ACCESS2_VERTEX_ATTRIBUTE_READ);
    let s = add_if(s, has_flag(access, gpu::BARRIER_ACCESS_CONSTANT_READ), vk::ACCESS2_UNIFORM_READ);
    let s = add_if(s, has_flag(access, gpu::BARRIER_ACCESS_SAMPLING_READ), vk::ACCESS2_SHADER_SAMPLED_READ);
    let s = add_if(s, has_flag(access, gpu::BARRIER_ACCESS_STORAGE_READ), vk::ACCESS2_SHADER_STORAGE_READ);
    let s = add_if(s, has_flag(access, gpu::BARRIER_ACCESS_STORAGE_WRITE), vk::ACCESS2_SHADER_STORAGE_WRITE);
    let s = add_if(s, has_flag(access, gpu::BARRIER_ACCESS_COPY_READ), vk::ACCESS2_TRANSFER_READ);
    let s = add_if(s, has_flag(access, gpu::BARRIER_ACCESS_COPY_WRITE), vk::ACCESS2_TRANSFER_WRITE);
    let s = add_if(s, has_flag(access, gpu::BARRIER_ACCESS_RESOLVE_READ), vk::ACCESS2_TRANSFER_READ);
    let s = add_if(s, has_flag(access, gpu::BARRIER_ACCESS_RESOLVE_WRITE), vk::ACCESS2_TRANSFER_WRITE);
    let s = add_if(s, has_flag(access, gpu::BARRIER_ACCESS_DEPTH_STENCIL_READ), vk::ACCESS2_DEPTH_STENCIL_ATTACHMENT_READ);
    s
}

/// `s` with the flags of the second half of the accesses.
pub open spec fn vk_barrier_access_rest(access: u32, s: u64) -> u64 {
    let s = add_if(s, has_flag(access, gpu::BARRIER_ACCESS_DEPTH_STENCIL_WRITE), vk::ACCESS2_DEPTH_STENCIL_ATTACHMENT_WRITE);
    let s = add_if(s, has_flag(access, gpu::BARRIER_ACCESS_RENDER_TARGET_READ), vk::ACCESS2_COLOR_ATTACHMENT_READ);
    let s = add_if(s, has_flag(access, gpu::BARRIER_ACCESS_RENDER_TARGET_WRITE), vk::ACCESS2_COLOR_ATTACHMENT_WRITE);
    let s = add_if(s, has_flag(access, gpu::BARRIER_ACCESS_SHADER_READ), vk::ACCESS2_SHADER_READ);
    let s = add_if(s, has_flag(access, gpu::BARRIER_ACCESS_SHADER_WRITE), vk::ACCESS2_SHADER_WRITE);
    let s = add_if(s, has_flag(access, gpu::BARRIER_ACCESS_MEMORY_READ), vk::ACCESS2_MEMORY_READ);
    let s = add_if(s, has_flag(access, gpu::BARRIER_ACCESS_MEMORY_WRITE), vk::ACCESS2_MEMORY_WRITE);
    let s = add_if(s, has_flag(access, gpu::BARRIER_ACCESS_HOST_READ), vk::ACCESS2_HOST_READ);
    let s = add_if(s, has_flag(access, gpu::BARRIER_ACCESS_HOST_WRITE), vk::ACCESS2_HOST_WRITE);
    let s = add_if(s, has_flag(access, gpu::BARRIER_ACCESS_ACCELERATION_STRUCTURE_READ), vk::ACCESS2_ACCELERATION_STRUCTURE_READ_KHR);
    let s = add_if(s, has_flag(access, gpu::BARRIER_ACCESS_ACCELERATION_STRUCTURE_WRITE), vk::ACCESS2_ACCELERATION_STRUCTURE_WRITE_KHR);
    s
}

fn barrier_access_first(access: u32) -> (r: u64)
    ensures
        r == vk_barrier_access_first(access),
{
    let mut vk_access: u64 = 0;
    vk_access = add_if_exec(
        vk_access,
        has_flag_exec(access, gpu::BARRIER_ACCESS_INDEX_READ),
        vk::ACCESS2_INDEX_READ,
    );
    vk_access = add_if_exec(
        vk_access,
        has_flag_exec(access, gpu::BARRIER_ACCESS_INDIRECT_READ),
        vk::ACCESS2_INDIRECT_COMMAND_READ,
    );
    vk_access = add_if_exec(
        vk_access,
        has_flag_exec(access, gpu::BARRIER_ACCESS_VERTEX_INPUT_READ),
        vk::ACCESS2_VERTEX_ATTRIBUTE_READ,
    );
    vk_access = add_if_exec(
        vk_access,
        has_flag_exec(access, gpu::BARRIER_ACCESS_CONSTANT_READ),
        vk::ACCESS2_UNIFORM_READ,
    );
    vk_access = add_if_exec(
        vk_access,
        has_flag_exec(access, gpu::BARRIER_ACCESS_SAMPLING_READ),
        vk::ACCESS2_SHADER_SAMPLED_READ,
    );
    vk_access = add_if_exec(
        vk_access,
        has_flag_exec(access, gpu::BARRIER_ACCESS_STORAGE_READ),
        vk::ACCESS2_SHADER_STORAGE_READ,
    );
    vk_access = add_if_exec(
        vk_access,
        has_flag_exec(access, gpu::BARRIER_ACCESS_STORAGE_WRITE),
        vk::ACCESS2_SHADER_STORAGE_WRITE,
    );
    vk_access = add_if_exec(
        vk_access,
        has_flag_exec(access, gpu::BARRIER_ACCESS_COPY_READ),
        vk::ACCESS2_TRANSFER_READ,
    );
    vk_access = add_if_exec(
        vk_access,
        has_flag_exec(access, gpu::BARRIER_ACCESS_COPY_WRITE),
        vk::ACCESS2_TRANSFER_WRITE,
    );
    vk_access = add_if_exec(
        vk_access,
        has_flag_exec(access, gpu::BARRIER_ACCESS_RESOLVE_READ),
        vk::ACCESS2_TRANSFER_READ,
    );
    vk_access = add_if_exec(
        vk_access,
        has_flag_exec(access, gpu::BARRIER_ACCESS_RESOLVE_WRITE),
        vk::ACCESS2_TRANSFER_WRITE,
    );
    vk_access = add_if_exec(
        vk_access,
        has_flag_exec(access, gpu::BARRIER_ACCESS_DEPTH_STENCIL_READ),
        vk::ACCESS2_DEPTH_STENCIL_ATTACHMENT_READ,
    );
    vk_access
}

fn barrier_access_rest(access: u32, s: u64) -> (r: u64)
    ensures
        r == vk_barrier_access_rest(access, s),
{
    let mut vk_access: u64 = s;
    vk_access = add_if_exec(
        vk_access,
        has_flag_exec(access, gpu::BARRIER_ACCESS_DEPTH_STENCIL_WRITE),
        vk::ACCESS2_DEPTH_STENCIL_ATTACHMENT_WRITE,
    );
    vk_access = add_if_exec(
        vk_access,
        has_flag_exec(access, gpu::BARRIER_ACCESS_RENDER_TARGET_READ),
        vk::ACCESS2_COLOR_ATTACHMENT_READ,
    );
    vk_access = add_if_exec(
        vk_access,
        has_flag_exec(access, gpu::BARRIER_ACCESS_RENDER_TARGET_WRITE),
        vk::ACCESS2_COLOR_ATTACHMENT_WRITE,
    );
    vk_access = add_if_exec(
        vk_access,
        has_flag_exec(access, gpu::BARRIER_ACCESS_SHADER_READ),
        vk::ACCESS2_SHADER_READ,
    );
    vk_access = add_if_exec(
        vk_access,
        has_flag_exec(access, gpu::BARRIER_ACCESS_SHADER_WRITE),
        vk::ACCESS2_SHADER_WRITE,
    );
    vk_access = add_if_exec(
        vk_access,
        has_flag_exec(access, gpu::BARRIER_ACCESS_MEMORY_READ),
        vk::ACCESS2_MEMORY_READ,
    );
    vk_access = add_if_exec(
        vk_access,
        has_flag_exec(access, gpu::BARRIER_ACCESS_MEMORY_WRITE),
        vk::ACCESS2_MEMORY_WRITE,
    );
    vk_access = add_if_exec(
        vk_access,
        has_flag_exec(access, gpu::BARRIER_ACCESS_HOST_READ),
        vk::ACCESS2_HOST_READ,
    );
    vk_access = add_if_exec(
        vk_access,
        has_flag_exec(access, gpu::BARRIER_ACCESS_HOST_WRITE),
        vk::ACCESS2_HOST_WRITE,
    );
    vk_access = add_if_exec(
        vk_access,
        has_flag_exec(access, gpu::BARRIER_ACCESS_ACCELERATION_STRUCTURE_READ),
        vk::ACCESS2_ACCELERATION_STRUCTURE_READ_KHR,
    );
    vk_access = add_if_exec(
        vk_access,
        has_flag_exec(access, gpu::BARRIER_ACCESS_ACCELERATION_STRUCTURE_WRITE),
        vk::ACCESS2_ACCELERATION_STRUCTURE_WRITE_KHR,
    );
    vk_access
}

pub fn barrier_access_to_access(access: u32) -> (r: u64)
    ensures
        r == vk_barrier_access(access),
{
    let first = barrier_access_first(access);
    barrier_access_rest(access, first)
}

/// The bits that let a buffer feed the build of an acceleration structure.
pub open spec fn vk_as_input_bits() -> u32 {
    vk::BUFFER_USAGE_ACCELERATION_STRUCTURE_BUILD_INPUT_READ_ONLY_KHR | vk::BUFFER_USAGE_SHADER_DEVICE_ADDRESS_EXT
}

/// The Vulkan usage of a buffer with the engine's usage `usage`. Vertex and
/// index buffers also feed acceleration structure builds where the device
/// traces rays; any copy into the buffer makes it a transfer destination.
pub open spec fn vk_buffer_usage(usage: u32, rt_supported: bool) -> u32 {
    let s: u32 = 0;
    let s = add_if32(s, has_flag(usage, gpu::BUFFER_USAGE_STORAGE), vk::BUFFER_USAGE_STORAGE_BUFFER);
    let s = add_if32(s, has_flag(usage, gpu::BUFFER_USAGE_CONSTANT), vk::BUFFER_USAGE_UNIFORM_BUFFER);
    let s = add_if32(s, has_flag(usage, gpu::BUFFER_USAGE_VERTEX), vk::BUFFER_USAGE_VERTEX_BUFFER);
    let s = add_if32(s, has_flag(usage, gpu::BUFFER_USAGE_VERTEX) && rt_supported, vk_as_input_bits());
    let s = add_if32(s, has_flag(usage, gpu::BUFFER_USAGE_INDEX), vk::BUFFER_USAGE_INDEX_BUFFER);
    let s = add_if32(s, has_flag(usage, gpu::BUFFER_USAGE_INDEX) && rt_supported, vk_as_input_bits());
    let s = add_if32(s, has_flag(usage, gpu::BUFFER_USAGE_INDIRECT), vk::BUFFER_USAGE_INDIRECT_BUFFER);
    let s = add_if32(s, has_flag(usage, gpu::BUFFER_USAGE_COPY_SRC), vk::BUFFER_USAGE_TRANSFER_SRC);
    let s = add_if32(
        s,
        usage & (gpu::BUFFER_USAGE_COPY_DST | gpu::BUFFER_USAGE_INITIAL_COPY) != 0,
        vk::BUFFER_USAGE_TRANSFER_DST,
    );
    let s = add_if32(
        s,
        has_flag(usage, gpu::BUFFER_USAGE_ACCELERATION_STRUCTURE),
        vk::BUFFER_USAGE_ACCELERATION_STRUCTURE_STORAGE_KHR | vk::BUFFER_USAGE_SHADER_DEVICE_ADDRESS_EXT,
    );
    let s = add_if32(s, has_flag(usage, gpu::BUFFER_USAGE_ACCELERATION_STRUCTURE_BUILD), vk_as_input_bits());
    let s = add_if32(
        s,
        has_flag(usage, gpu::BUFFER_USAGE_SHADER_BINDING_TABLE),
        vk::BUFFER_USAGE_SHADER_BINDING_TABLE_KHR | vk::BUFFER_USAGE_SHADER_DEVICE_ADDRESS_EXT,
    );
    let s = add_if32(s, has_flag(usage, gpu::BUFFER_USAGE_QUERY_RESOLVE), vk::BUFFER_USAGE_TRANSFER_DST);
    s
}

/// Law: the Vulkan usage of a union of usages is the union of their Vulkan
/// usages, no usage gives no Vulkan usage, and ray tracing support only adds
/// Vulkan usage bits.
pub proof fn law_buffer_usage_distributes(a: u32, b: u32, u: u32, rt_supported: bool)
    ensures
        vk_buffer_usage(a | b, rt_supported) == vk_buffer_usage(a, rt_supported) | vk_buffer_usage(b, rt_supported),
        vk_buffer_usage(0, rt_supported) == 0,
        vk_buffer_usage(u, true) & vk_buffer_usage(u, false) == vk_buffer_usage(u, false),
{
    reveal(has_flag);
    assert(vk_buffer_usage(a | b, rt_supported) == vk_buffer_usage(a, rt_supported) | vk_buffer_usage(b, rt_supported))
        by (bit_vector);
    assert(vk_buffer_usage(0, rt_supported) == 0) by (bit_vector);
    assert(vk_buffer_usage(u, true) & vk_buffer_usage(u, false) == vk_buffer_usage(u, false)) by (bit_vector);
}

pub fn buffer_usage_to_vk(usage: u32, rt_supported: bool) -> (r: u32)
    ensures
        r == vk_buffer_usage(usage, rt_supported),
{
    let as_input = vk::BUFFER_USAGE_ACCELERATION_STRUCTURE_BUILD_INPUT_READ_ONLY_KHR
        | vk::BUFFER_USAGE_SHADER_DEVICE_ADDRESS_EXT;
    let vertex = has_flag_exec(usage, gpu::BUFFER_USAGE_VERTEX);
    let index = has_flag_exec(usage, gpu::BUFFER_USAGE_INDEX);
    let mut flags: u32 = 0;
    flags = add_if32_exec(
        flags,
        has_flag_exec(usage, gpu::BUFFER_USAGE_STORAGE),
        vk::BUFFER_USAGE_STORAGE_BUFFER,
    );
    flags = add_if32_exec(
        flags,
        has_flag_exec(usage, gpu::BUFFER_USAGE_CONSTANT),
        vk::BUFFER_USAGE_UNIFORM_BUFFER,
    );
    flags = add_if32_exec(flags, vertex, vk::BUFFER_USAGE_VERTEX_BUFFER);
    flags = add_if32_exec(flags, vertex && rt_supported, as_input);
    flags = add_if32_exec(flags, index, vk::BUFFER_USAGE_INDEX_BUFFER);
    flags = add_if32_exec(flags, index && rt_supported, as_input);
    flags = add_if32_exec(
        flags,
        has_flag_exec(usage, gpu::BUFFER_USAGE_INDIRECT),
        vk::BUFFER_USAGE_INDIRECT_BUFFER,
    );
    flags = add_if32_exec(
        flags,
        has_flag_exec(usage, gpu::BUFFER_USAGE_COPY_SRC),
        vk::BUFFER_USAGE_TRANSFER_SRC,
    );
    flags = add_if32_exec(
        flags,
        usage & (gpu::BUFFER_USAGE_COPY_DST | gpu::BUFFER_USAGE_INITIAL_COPY) != 0,
        vk::BUFFER_USAGE_TRANSFER_DST,
    );
    flags = add_if32_exec(
        flags,
        has_flag_exec(usage, gpu::BUFFER_USAGE_ACCELERATION_STRUCTURE),
        vk::BUFFER_USAGE_ACCELERATION_STRUCTURE_STORAGE_KHR | vk::BUFFER_USAGE_SHADER_DEVICE_ADDRESS_EXT,
    );
    flags = add_if32_exec(
        flags,
        has_flag_exec(usage, gpu::BUFFER_USAGE_ACCELERATION_STRUCTURE_BUILD),
        as_input,
    );
    flags = add_if32_exec(
        flags,
        has_flag_exec(usage, gpu::BUFFER_USAGE_SHADER_BINDING_TABLE),
        vk::BUFFER_USAGE_SHADER_BINDING_TABLE_KHR | vk::BUFFER_USAGE_SHADER_DEVICE_ADDRESS_EXT,
    );
    flags = add_if32_exec(
        flags,
        has_flag_exec(usage, gpu::BUFFER_USAGE_QUERY_RESOLVE),
        vk::BUFFER_USAGE_TRANSFER_DST,
    );
    flags
}

/// The Vulkan color channels of the engine's color channels; both name red,
/// green, blue and alpha by the same four low bits.
pub open spec fn vk_color_components(components: u32) -> u32 {
    components & 0xf
}

pub fn color_components_to_vk(color_components: u32) -> (r: u32)
    ensures
        r == vk_color_components(color_components),
{
    let c = color_components;
    let mut colors: u32 = 0;
    if c & gpu::COLOR_COMPONENT_RED != 0 {
        colors = colors | vk::COLOR_COMPONENT_R;
    }
    if c & gpu::COLOR_COMPONENT_GREEN != 0 {
        colors = colors | vk::COLOR_COMPONENT_G;
    }
    if c & gpu::COLOR_COMPONENT_BLUE != 0 {
        colors = colors | vk::COLOR_COMPONENT_B;
    }
    if c & gpu::COLOR_COMPONENT_ALPHA != 0 {
        colors = colors | vk::COLOR_COMPONENT_A;
    }
    proof {
        let r0: u32 = 0;
        let r1: u32 = if c & 1 != 0 { r0 | 1 } else { r0 };
        let r2: u32 = if c & 2 != 0 { r1 | 2 } else { r1 };
        let r3: u32 = if c & 4 != 0 { r2 | 4 } else { r2 };
        let r4: u32 = if c & 8 != 0 { r3 | 8 } else { r3 };
        assert(r4 == c & 0xf) by (bit_vector)
            requires
                r0 == 0,
                r1 == if c & 1 != 0 { r0 | 1 } else { r0 },
                r2 == if c & 2 != 0 { r1 | 2 } else { r1 },
                r3 == if c & 4 != 0 { r2 | 4 } else { r2 },
                r4 == if c & 8 != 0 { r3 | 8 } else { r3 };
    }
    colors
}

} // verus!
