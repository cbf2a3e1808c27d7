//! The description of a render graph that the backend compiles into a template:
//! passes, their inputs and outputs, and the resources that come from outside.
//!
//! Resources are named by `u32` identifiers.
use vstd::prelude::*;

verus! {

/// The name of a resource of the render graph.
pub type ResourceName = u32;

/// The name under which the swapchain's back buffer is known.
pub const BACK_BUFFER_ATTACHMENT_NAME: u32 = 0xFFFF_FFFFu32;

/// A texture format of the engine. Its Vulkan counterpart is chosen by `format_to_vk`.
#[derive(Clone, Copy, PartialEq, Eq, Structural, Debug)]
pub enum Format {
    Unknown,
    R32UInt,
    R16UInt,
    R16SNorm,
    R16UNorm,
    R16Float,
    R32Float,
    R8Unorm,
    RG32Float,
    RGB32Float,
    RGBA32Float,
    RGBA8UNorm,
    RGBA8Srgb,
    BGR8UNorm,
    BGRA8UNorm,
    D16,
    D16S8,
    D24,
    D32,
    D32S8,
    BC1,
    BC1Alpha,
    BC2,
    BC3,
    RG16UNorm,
    RG8UNorm,
    RG16Float,
    RGBA16Float,
    R11G11B10Float,
    RG16UInt,
}

impl Format {
    pub open spec fn spec_is_depth(self) -> bool {
        self == Format::D16 || self == Format::D16S8 || self == Format::D24 || self == Format::D32
            || self == Format::D32S8
    }

    pub open spec fn spec_is_stencil(self) -> bool {
        self == Format::D16S8 || self == Format::D24 || self == Format::D32S8
    }

    /// The format holds depth.
    #[verifier::when_used_as_spec(spec_is_depth)]
    pub fn is_depth(self) -> (b: bool)
        ensures
            b == self.spec_is_depth(),
    {
        match self {
            Format::D16 | Format::D16S8 | Format::D24 | Format::D32 | Format::D32S8 => true,
            _ => false,
        }
    }

    /// The format holds stencil.
    #[verifier::when_used_as_spec(spec_is_stencil)]
    pub fn is_stencil(self) -> (b: bool)
        ensures
            b == self.spec_is_stencil(),
    {
        match self {
            Format::D16S8 | Format::D24 | Format::D32S8 => true,
            _ => false,
        }
    }
}

/// Samples per texel.
#[derive(Clone, Copy, PartialEq, Eq, Structural, Debug)]
pub enum SampleCount {
    Samples1,
    Samples2,
    Samples4,
    Samples8,
}

/// The extent of a render graph texture. A relative extent holds the bit
/// patterns of two `f32` factors of the swapchain's size.
#[derive(Clone, Copy, PartialEq, Eq, Structural, Debug)]
pub enum RenderPassTextureExtent {
    RelativeToSwapchain { width_bits: u32, height_bits: u32 },
    Absolute { width: u32, height: u32, depth: u32 },
}

/// The bit pattern of the `f32` value 1.0.
pub const F32_ONE_BITS: u32 = 0x3F80_0000u32;

/// The stage that reads a pass input.
#[derive(Clone, Copy, PartialEq, Eq, Structural, Debug)]
pub enum PipelineStage {
    GraphicsShaders,
    VertexShader,
    FragmentShader,
    ComputeShader,
    Copy,
}

/// How a pass input is read.
#[derive(Clone, Copy, PartialEq, Eq, Structural, Debug)]
pub enum InputUsage {
    Storage,
    Sampled,
    Local,
    Copy,
}

/// A resource that a pass reads.
#[derive(Clone, Copy, PartialEq, Eq, Structural, Debug)]
pub struct PassInput {
    pub name: ResourceName,
    pub stage: PipelineStage,
    pub usage: InputUsage,
    pub is_history: bool,
}

/// An output of a graphics subpass.
#[derive(Clone, Copy, PartialEq, Eq, Structural, Debug)]
pub enum SubpassOutput {
    RenderTarget {
        name: ResourceName,
        format: Format,
        samples: SampleCount,
        extent: RenderPassTextureExtent,
        depth: u32,
        levels: u32,
        external: bool,
        clear: bool,
    },
    Backbuffer { clear: bool },
}

/// The depth stencil attachment of a graphics subpass.
#[derive(Clone, Copy, PartialEq, Eq, Structural, Debug)]
pub enum DepthStencil {
    Output {
        name: ResourceName,
        format: Format,
        samples: SampleCount,
        extent: RenderPassTextureExtent,
        clear: bool,
    },
    Input { name: ResourceName, is_history: bool },
    NoAttachment,
}

/// A subpass of a graphics pass.
pub struct GraphicsSubpassInfo {
    pub outputs: Vec<SubpassOutput>,
    pub inputs: Vec<PassInput>,
    pub depth_stencil: DepthStencil,
}

/// An output of a compute or copy pass.
#[derive(Clone, Copy, PartialEq, Eq, Structural, Debug)]
pub enum Output {
    RenderTarget {
        name: ResourceName,
        format: Format,
        samples: SampleCount,
        extent: RenderPassTextureExtent,
        depth: u32,
        levels: u32,
        external: bool,
        clear: bool,
    },
    Backbuffer { clear: bool },
    Buffer { name: ResourceName, format: Option<Format>, size: u32, clear: bool },
    DepthStencil {
        name: ResourceName,
        format: Format,
        samples: SampleCount,
        extent: RenderPassTextureExtent,
        clear: bool,
    },
}

/// What a pass does.
pub enum PassType {
    Graphics { subpasses: Vec<GraphicsSubpassInfo> },
    Compute { inputs: Vec<PassInput>, outputs: Vec<Output> },
    Copy { inputs: Vec<PassInput>, outputs: Vec<Output> },
}

/// A pass of the render graph.
pub struct PassInfo {
    pub name: String,
    pub pass_type: PassType,
}

/// Who writes a resource that comes from outside the graph.
#[derive(Clone, Copy, PartialEq, Eq, Structural, Debug)]
pub enum ExternalProducerType {
    Graphics,
    Compute,
    Copy,
    Host,
}

/// A resource that comes from outside the graph.
#[derive(Clone, Copy, PartialEq, Eq, Structural, Debug)]
pub enum ExternalOutput {
    Buffer { name: ResourceName, producer_type: ExternalProducerType },
    RenderTarget { name: ResourceName, producer_type: ExternalProducerType },
    DepthStencil { name: ResourceName, producer_type: ExternalProducerType },
}

/// A render graph: its passes, its outside resources and the swapchain's format.
pub struct RenderGraphTemplateInfo {
    pub passes: Vec<PassInfo>,
    pub external_resources: Vec<ExternalOutput>,
    pub swapchain_format: Format,
    pub swapchain_sample_count: SampleCount,
}

impl ExternalOutput {
    pub open spec fn spec_name(self) -> ResourceName {
        match self {
            ExternalOutput::Buffer { name, .. } => name,
            ExternalOutput::RenderTarget { name, .. } => name,
            ExternalOutput::DepthStencil { name, .. } => name,
        }
    }
}

/// The number of input/output groups of a pass: a graphics pass has one per
/// subpass, a compute or copy pass one.
pub open spec fn pass_group_count(p: PassInfo) -> nat {
    match p.pass_type {
        PassType::Graphics { subpasses } => subpasses@.len(),
        _ => 1,
    }
}

/// The inputs of group `g` of a pass.
pub open spec fn pass_group_inputs(p: PassInfo, g: int) -> Seq<PassInput> {
    match p.pass_type {
        PassType::Graphics { subpasses } => subpasses@[g].inputs@,
        PassType::Compute { inputs, .. } => inputs@,
        PassType::Copy { inputs, .. } => inputs@,
    }
}

/// Group `g` of a pass writes the back buffer.
pub open spec fn pass_group_writes_backbuffer(p: PassInfo, g: int) -> bool {
    match p.pass_type {
        PassType::Graphics { subpasses } => exists|i: int|
            0 <= i < subpasses@[g].outputs@.len() && #[trigger] subpasses@[g].outputs@[i] is Backbuffer,
        PassType::Compute { outputs, .. } => exists|i: int|
            0 <= i < outputs@.len() && #[trigger] outputs@[i] is Backbuffer,
        PassType::Copy { outputs, .. } => exists|i: int|
            0 <= i < outputs@.len() && #[trigger] outputs@[i] is Backbuffer,
    }
}

} // verus!
