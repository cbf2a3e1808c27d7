//! The engine's graphics vocabulary that the Vulkan backend translates:
//! texture layouts, pipeline state enums, and the flags of barriers and buffers.
use vstd::prelude::*;

verus! {

/// The layout a texture is in.
#[derive(Clone, Copy, PartialEq, Eq, Structural, Debug)]
pub enum TextureLayout {
    Undefined,
    General,
    Sampled,
    Storage,
    DepthStencilRead,
    DepthStencilReadWrite,
    RenderTarget,
    CopySrc,
    CopyDst,
    ResolveSrc,
    ResolveDst,
    Present,
}

/// The width of the indices of an index buffer.
#[derive(Clone, Copy, PartialEq, Eq, Structural, Debug)]
pub enum IndexFormat {
    U16,
    U32,
}

/// The stage a shader runs in.
#[derive(Clone, Copy, PartialEq, Eq, Structural, Debug)]
pub enum ShaderType {
    VertexShader,
    FragmentShader,
    GeometryShader,
    TessellationControlShader,
    TessellationEvaluationShader,
    ComputeShader,
    RayGen,
    RayClosestHit,
    RayMiss,
}

#[derive(Clone, Copy, PartialEq, Eq, Structural, Debug)]
pub enum CompareFunc {
    Never,
    Less,
    LessEqual,
    Equal,
    NotEqual,
    GreaterEqual,
    Greater,
    Always,
}

#[derive(Clone, Copy, PartialEq, Eq, Structural, Debug)]
pub enum StencilOp {
    Keep,
    Zero,
    Replace,
    Increase,
    Decrease,
    IncreaseClamp,
    DecreaseClamp,
    Invert,
}

#[derive(Clone, Copy, PartialEq, Eq, Structural, Debug)]
pub enum LogicOp {
    Clear,
    SetAll,
    Copy,
    CopyInverted,
    Noop,
    Invert,
    And,
    Nand,
    Or,
    Nor,
    Xor,
    Equivalent,
    AndReversed,
    AndInverted,
    OrReverse,
    OrInverted,
}

#[derive(Clone, Copy, PartialEq, Eq, Structural, Debug)]
pub enum BlendFactor {
    Zero,
    One,
    SrcColor,
    OneMinusSrcColor,
    DstColor,
    OneMinusDstColor,
    SrcAlpha,
    OneMinusSrcAlpha,
    DstAlpha,
    OneMinusDstAlpha,
    ConstantColor,
    OneMinusConstantColor,
    SrcAlphaSaturate,
    Src1Color,
    OneMinusSrc1Color,
    Src1Alpha,
    OneMinusSrc1Alpha,
}

#[derive(Clone, Copy, PartialEq, Eq, Structural, Debug)]
pub enum BlendOp {
    Add,
    Subtract,
    ReverseSubtract,
    Min,
    Max,
}

/// How often a vertex buffer advances.
#[derive(Clone, Copy, PartialEq, Eq, Structural, Debug)]
pub enum InputRate {
    PerVertex,
    PerInstance,
}

/// The queues of a device.
#[derive(Clone, Copy, PartialEq, Eq, Structural, Debug)]
pub enum QueueType {
    Graphics,
    Compute,
    Transfer,
}

/// Whether a resource is owned by one queue family at a time.
#[derive(Clone, Copy, PartialEq, Eq, Structural, Debug)]
pub enum QueueSharingMode {
    Exclusive,
    Concurrent,
}

/// How often a descriptor set changes.
#[derive(Clone, Copy, PartialEq, Eq, Structural, Debug)]
pub enum BindingFrequency {
    PerDraw,
    PerMaterial,
    PerFrame,
}

/// The index of a binding frequency in tables of sets.
pub open spec fn frequency_index(f: BindingFrequency) -> int {
    match f {
        BindingFrequency::PerDraw => 0,
        BindingFrequency::PerMaterial => 1,
        BindingFrequency::PerFrame => 2,
    }
}

pub fn frequency_index_exec(f: BindingFrequency) -> (i: usize)
    ensures
        i == frequency_index(f),
        i < 3,
{
    match f {
        BindingFrequency::PerDraw => 0,
        BindingFrequency::PerMaterial => 1,
        BindingFrequency::PerFrame => 2,
    }
}

/// The kind of a GPU.
#[derive(Clone, Copy, PartialEq, Eq, Structural, Debug)]
pub enum AdapterType {
    Discrete,
    Integrated,
    Virtual,
    Software,
    Other,
}

/// Where a memory heap lives.
#[derive(Clone, Copy, PartialEq, Eq, Structural, Debug)]
pub enum MemoryKind {
    VRAM,
    RAM,
}

// Channels written by a color attachment.
pub const COLOR_COMPONENT_RED: u32 = 0x1u32;
pub const COLOR_COMPONENT_GREEN: u32 = 0x2u32;
pub const COLOR_COMPONENT_BLUE: u32 = 0x4u32;
pub const COLOR_COMPONENT_ALPHA: u32 = 0x8u32;

// Work that a barrier waits for or blocks.
pub const BARRIER_SYNC_COMPUTE_SHADER: u32 = 0x1u32;
pub const BARRIER_SYNC_COPY: u32 = 0x2u32;
pub const BARRIER_SYNC_EARLY_DEPTH: u32 = 0x4u32;
pub const BARRIER_SYNC_FRAGMENT_SHADER: u32 = 0x8u32;
pub const BARRIER_SYNC_INDIRECT: u32 = 0x10u32;
pub const BARRIER_SYNC_LATE_DEPTH: u32 = 0x20u32;
pub const BARRIER_SYNC_RENDER_TARGET: u32 = 0x40u32;
pub const BARRIER_SYNC_RESOLVE: u32 = 0x80u32;
pub const BARRIER_SYNC_VERTEX_INPUT: u32 = 0x100u32;
pub const BARRIER_SYNC_INDEX_INPUT: u32 = 0x200u32;
pub const BARRIER_SYNC_VERTEX_SHADER: u32 = 0x400u32;
pub const BARRIER_SYNC_HOST: u32 = 0x800u32;
pub const BARRIER_SYNC_ACCELERATION_STRUCTURE_BUILD: u32 = 0x1000u32;
pub const BARRIER_SYNC_RAY_TRACING: u32 = 0x2000u32;

// Memory accesses that a barrier makes visible or available.
pub const BARRIER_ACCESS_INDEX_READ: u32 = 0x1u32;
pub const BARRIER_ACCESS_INDIRECT_READ: u32 = 0x2u32;
pub const BARRIER_ACCESS_VERTEX_INPUT_READ: u32 = 0x4u32;
pub const BARRIER_ACCESS_CONSTANT_READ: u32 = 0x8u32;
pub const BARRIER_ACCESS_SAMPLING_READ: u32 = 0x10u32;
pub const BARRIER_ACCESS_STORAGE_READ: u32 = 0x20u32;
pub const BARRIER_ACCESS_STORAGE_WRITE: u32 = 0x40u32;
pub const BARRIER_ACCESS_COPY_READ: u32 = 0x80u32;
pub const BARRIER_ACCESS_COPY_WRITE: u32 = 0x100u32;
pub const BARRIER_ACCESS_RESOLVE_READ: u32 = 0x200u32;
pub const BARRIER_ACCESS_RESOLVE_WRITE: u32 = 0x400u32;
pub const BARRIER_ACCESS_DEPTH_STENCIL_READ: u32 = 0x800u32;
pub const BARRIER_ACCESS_DEPTH_STENCIL_WRITE: u32 = 0x1000u32;
pub const BARRIER_ACCESS_RENDER_TARGET_READ: u32 = 0x2000u32;
pub const BARRIER_ACCESS_RENDER_TARGET_WRITE: u32 = 0x4000u32;
pub const BARRIER_ACCESS_SHADER_READ: u32 = 0x8000u32;
pub const BARRIER_ACCESS_SHADER_WRITE: u32 = 0x10000u32;
pub const BARRIER_ACCESS_MEMORY_READ: u32 = 0x20000u32;
pub const BARRIER_ACCESS_MEMORY_WRITE: u32 = 0x40000u32;
pub const BARRIER_ACCESS_HOST_READ: u32 = 0x80000u32;
pub const BARRIER_ACCESS_HOST_WRITE: u32 = 0x100000u32;
pub const BARRIER_ACCESS_ACCELERATION_STRUCTURE_READ: u32 = 0x200000u32;
pub const BARRIER_ACCESS_ACCELERATION_STRUCTURE_WRITE: u32 = 0x400000u32;

// What a buffer is used for.
pub const BUFFER_USAGE_STORAGE: u32 = 0x1u32;
pub const BUFFER_USAGE_CONSTANT: u32 = 0x2u32;
pub const BUFFER_USAGE_VERTEX: u32 = 0x4u32;
pub const BUFFER_USAGE_INDEX: u32 = 0x8u32;
pub const BUFFER_USAGE_INDIRECT: u32 = 0x10u32;
pub const BUFFER_USAGE_COPY_SRC: u32 = 0x20u32;
pub const BUFFER_USAGE_COPY_DST: u32 = 0x40u32;
pub const BUFFER_USAGE_INITIAL_COPY: u32 = 0x80u32;
pub const BUFFER_USAGE_ACCELERATION_STRUCTURE: u32 = 0x100u32;
pub const BUFFER_USAGE_ACCELERATION_STRUCTURE_BUILD: u32 = 0x200u32;
pub const BUFFER_USAGE_SHADER_BINDING_TABLE: u32 = 0x400u32;
pub const BUFFER_USAGE_QUERY_RESOLVE: u32 = 0x800u32;

} // verus!
