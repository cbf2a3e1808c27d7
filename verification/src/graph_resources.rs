//! What the render graph template knows of each resource: how it was created,
//! in which passes it is used and how, and the access it was last left in.
//!
//! The recording of a pass is stated as a sequence of events (one per output,
//! depth stencil attachment and input) applied in order to the resource table.
use vstd::prelude::*;
use crate::table::{AssocTable, seq_upsert, lemma_take_restore};
use crate::graph_info::{ResourceName, Format, SampleCount, RenderPassTextureExtent, InputUsage, PassInput, PipelineStage, SubpassOutput, DepthStencil, GraphicsSubpassInfo, Output, PassType, PassInfo, BACK_BUFFER_ATTACHMENT_NAME, F32_ONE_BITS};

verus! {

// Usages of textures inside a render graph.
pub const TEXTURE_USAGE_RENDER_TARGET: u32 = 0x1u32;
pub const TEXTURE_USAGE_DEPTH_READ: u32 = 0x2u32;
pub const TEXTURE_USAGE_DEPTH_WRITE: u32 = 0x4u32;
pub const TEXTURE_USAGE_VERTEX_SHADER_SAMPLED: u32 = 0x8u32;
pub const TEXTURE_USAGE_FRAGMENT_SHADER_SAMPLED: u32 = 0x10u32;
pub const TEXTURE_USAGE_COMPUTE_SHADER_SAMPLED: u32 = 0x20u32;
pub const TEXTURE_USAGE_VERTEX_SHADER_STORAGE_READ: u32 = 0x40u32;
pub const TEXTURE_USAGE_FRAGMENT_SHADER_STORAGE_READ: u32 = 0x80u32;
pub const TEXTURE_USAGE_COMPUTE_SHADER_STORAGE_READ: u32 = 0x100u32;
pub const TEXTURE_USAGE_COMPUTE_SHADER_STORAGE_WRITE: u32 = 0x200u32;
pub const TEXTURE_USAGE_FRAGMENT_SHADER_LOCAL: u32 = 0x400u32;
pub const TEXTURE_USAGE_COPY_SRC: u32 = 0x800u32;
pub const TEXTURE_USAGE_COPY_DST: u32 = 0x1000u32;
pub const TEXTURE_USAGE_BLIT_DST: u32 = 0x2000u32;
pub const TEXTURE_USAGE_VERTEX_SHADER_STORAGE_WRITE: u32 = 0x4000u32;
pub const TEXTURE_USAGE_FRAGMENT_SHADER_STORAGE_WRITE: u32 = 0x8000u32;

// Usages of buffers inside a render graph.
pub const BUFFER_USAGE_VERTEX_SHADER_STORAGE_READ: u32 = 0x1u32;
pub const BUFFER_USAGE_FRAGMENT_SHADER_STORAGE_READ: u32 = 0x2u32;
pub const BUFFER_USAGE_COMPUTE_SHADER_STORAGE_READ: u32 = 0x4u32;
pub const BUFFER_USAGE_VERTEX_SHADER_STORAGE_WRITE: u32 = 0x8u32;
pub const BUFFER_USAGE_FRAGMENT_SHADER_STORAGE_WRITE: u32 = 0x10u32;
pub const BUFFER_USAGE_COMPUTE_SHADER_STORAGE_WRITE: u32 = 0x20u32;
pub const BUFFER_USAGE_COMPUTE_SHADER_CONSTANT: u32 = 0x40u32;
pub const BUFFER_USAGE_COPY_SRC: u32 = 0x80u32;
pub const BUFFER_USAGE_COPY_DST: u32 = 0x100u32;
pub const BUFFER_USAGE_VERTEX_SHADER_CONSTANT: u32 = 0x200u32;
pub const BUFFER_USAGE_FRAGMENT_SHADER_CONSTANT: u32 = 0x400u32;

/// The usages of the depth stencil output of a graphics subpass.
pub open spec fn depth_output_usage() -> u32 {
    TEXTURE_USAGE_DEPTH_WRITE | TEXTURE_USAGE_DEPTH_READ
}

/// How a resource is accessed: its usages and its primary usages.
#[derive(Clone, Copy, PartialEq, Eq, Structural, Debug)]
pub enum ResourceAccess {
    Buffer { usage: u32, primary_usage: u32 },
    Texture { usage: u32, primary_usage: u32 },
}

/// An access with no usage, of a buffer or a texture.
pub open spec fn empty_access(is_buffer: bool) -> ResourceAccess {
    if is_buffer {
        ResourceAccess::Buffer { usage: 0, primary_usage: 0 }
    } else {
        ResourceAccess::Texture { usage: 0, primary_usage: 0 }
    }
}

pub fn make_empty_access(is_buffer: bool) -> (a: ResourceAccess)
    ensures
        a == empty_access(is_buffer),
{
    if is_buffer {
        ResourceAccess::Buffer { usage: 0, primary_usage: 0 }
    } else {
        ResourceAccess::Texture { usage: 0, primary_usage: 0 }
    }
}

/// How a resource of the graph comes into being.
#[derive(Clone, Copy, PartialEq, Eq, Structural, Debug)]
pub enum VkResourceTemplate {
    Texture {
        name: ResourceName,
        format: Format,
        samples: SampleCount,
        extent: RenderPassTextureExtent,
        depth: u32,
        levels: u32,
        external: bool,
        is_backbuffer: bool,
    },
    Buffer { name: ResourceName, format: Option<Format>, size: u32, clear: bool },
    ExternalBuffer,
    ExternalTexture { is_depth_stencil: bool },
}

/// The template describes a buffer.
pub open spec fn template_is_buffer(t: VkResourceTemplate) -> bool {
    match t {
        VkResourceTemplate::Texture { .. } => false,
        VkResourceTemplate::Buffer { .. } => true,
        VkResourceTemplate::ExternalBuffer => true,
        VkResourceTemplate::ExternalTexture { .. } => false,
    }
}

/// What a compute or copy pass takes for a buffer: an outside texture counts as one.
pub open spec fn template_is_buffer_for_compute(t: VkResourceTemplate) -> bool {
    match t {
        VkResourceTemplate::Texture { .. } => false,
        _ => true,
    }
}

/// The first and the last pass (by position in the final order) that use a resource.
#[derive(Clone, Copy, PartialEq, Eq, Structural, Debug)]
pub struct ResourcePassRange {
    pub first_used_in_pass_index: u32,
    pub last_used_in_pass_index: u32,
}

impl Default for ResourcePassRange {
    fn default() -> (r: Self)
        ensures
            r.first_used_in_pass_index == 0 && r.last_used_in_pass_index == 0,
    {
        ResourcePassRange { first_used_in_pass_index: 0, last_used_in_pass_index: 0 }
    }
}

/// What is known of the previous frame's contents of a resource.
pub struct HistoryResourceMetadata {
    pub pass_range: ResourcePassRange,
    pub pass_accesses: AssocTable<ResourceAccess>,
    pub current_access: ResourceAccess,
    pub initial_usage: u32,
}

/// What is known of a resource.
pub struct ResourceMetadata {
    pub template: VkResourceTemplate,
    pub pass_range: ResourcePassRange,
    pub history: Option<HistoryResourceMetadata>,
    pub pass_accesses: AssocTable<ResourceAccess>,
    pub current_access: ResourceAccess,
}

/// The mathematical value of a `HistoryResourceMetadata`.
pub struct HistoryModel {
    pub pass_range: ResourcePassRange,
    pub pass_accesses: Seq<(u32, ResourceAccess)>,
    pub current_access: ResourceAccess,
    pub initial_usage: u32,
}

/// The mathematical value of a `ResourceMetadata`: the accesses per pass are
/// the pairs (pass index, access) in the order the passes first used it.
pub struct MetadataModel {
    pub template: VkResourceTemplate,
    pub pass_range: ResourcePassRange,
    pub history: Option<HistoryModel>,
    pub pass_accesses: Seq<(u32, ResourceAccess)>,
    pub current_access: ResourceAccess,
}

impl HistoryResourceMetadata {
    pub open spec fn model(&self) -> HistoryModel {
        HistoryModel {
            pass_range: self.pass_range,
            pass_accesses: self.pass_accesses.entries(),
            current_access: self.current_access,
            initial_usage: self.initial_usage,
        }
    }

    pub open spec fn wf(&self) -> bool {
        self.pass_accesses.wf()
    }
}

pub open spec fn history_model(h: Option<HistoryResourceMetadata>) -> Option<HistoryModel> {
    match h {
        Some(h) => Some(h.model()),
        None => None,
    }
}

impl ResourceMetadata {
    pub open spec fn model(&self) -> MetadataModel {
        MetadataModel {
            template: self.template,
            pass_range: self.pass_range,
            history: history_model(self.history),
            pass_accesses: self.pass_accesses.entries(),
            current_access: self.current_access,
        }
    }

    pub open spec fn wf(&self) -> bool {
        &&& self.pass_accesses.wf()
        &&& match self.history {
            Some(h) => h.wf(),
            None => true,
        }
    }

    /// Metadata of a resource about to be created from `template`.
    pub fn new(template: VkResourceTemplate) -> (m: Self)
        ensures
            m.wf(),
            m.model() == new_metadata_model(template),
    {
        let is_buffer = match template {
            VkResourceTemplate::Texture { .. } => false,
            VkResourceTemplate::Buffer { .. } => true,
            VkResourceTemplate::ExternalBuffer => true,
            VkResourceTemplate::ExternalTexture { .. } => false,
        };
        ResourceMetadata {
            template,
            pass_range: ResourcePassRange::default(),
            history: None,
            pass_accesses: AssocTable::new(),
            current_access: make_empty_access(is_buffer),
        }
    }
}

/// The metadata of a resource about to be created from `template`.
pub open spec fn new_metadata_model(template: VkResourceTemplate) -> MetadataModel {
    MetadataModel {
        template,
        pass_range: ResourcePassRange { first_used_in_pass_index: 0, last_used_in_pass_index: 0 },
        history: None,
        pass_accesses: Seq::empty(),
        current_access: empty_access(template_is_buffer(template)),
    }
}

/// The resources of a render graph, by name.
pub type ResourceTable = AssocTable<ResourceMetadata>;

/// The table holds no key twice and well-formed metadata.
pub open spec fn table_wf(t: ResourceTable) -> bool {
    &&& t.wf()
    &&& forall|k: u32| #[trigger] t@.dom().contains(k) ==> t@[k].wf()
}

/// The table as a map from names to metadata values.
pub open spec fn table_model(t: ResourceTable) -> Map<u32, MetadataModel> {
    t@.map_values(|m: ResourceMetadata| m.model())
}

/// Why a render graph cannot be compiled.
#[derive(Clone, Copy, PartialEq, Eq, Structural, Debug)]
pub enum RenderGraphError {
    /// No remaining pass has all its inputs available. Compiling a graph
    /// requires that this never happens, so it stands only in the
    /// specification of the pass order.
    InvalidRenderGraph,
    /// A pass reads a resource that nothing has produced yet.
    MissingResource { name: ResourceName },
    /// A pass input is read by a stage that the pass kind does not allow.
    IllegalInputStage { name: ResourceName },
    /// A pass input is read in a way that its kind of resource does not allow.
    UnsupportedInputUsage { name: ResourceName },
    /// A compute or copy pass reads the back buffer. Building such a pass
    /// requires that this never happens, so it stands only in the
    /// specification of the pass.
    BackbufferAsInput,
    /// A depth stencil input that is no texture of the graph.
    UnsupportedDepthStencilInput { name: ResourceName },
    /// A buffer access recorded for a texture, or the reverse.
    AccessKindMismatch { name: ResourceName },
    /// A resource has no access recorded where one is looked up.
    MissingPassAccess { name: ResourceName },
}

/// One step of recording a pass into the resource table.
#[derive(Clone, Copy, PartialEq, Eq, Structural, Debug)]
pub enum GraphEvent {
    /// The pass writes `name`, which is created from `template` unless it exists.
    Output { name: ResourceName, template: VkResourceTemplate, access: ResourceAccess },
    /// A graphics subpass reads `input`.
    GraphicsInput { input: PassInput },
    /// A graphics subpass reads `name` as depth stencil attachment.
    DepthInput { name: ResourceName, is_history: bool },
    /// A compute pass reads `input`.
    ComputeInput { input: PassInput },
    /// A copy pass reads `input`.
    CopyInput { input: PassInput },
}

/// The resource is written by pass `p`: it is the first use of its current contents.
pub open spec fn record_output(m: MetadataModel, access: ResourceAccess, p: u32) -> MetadataModel {
    MetadataModel {
        template: m.template,
        pass_range: ResourcePassRange {
            first_used_in_pass_index: p,
            last_used_in_pass_index: m.pass_range.last_used_in_pass_index,
        },
        history: m.history,
        pass_accesses: seq_upsert(m.pass_accesses, p, access),
        current_access: m.current_access,
    }
}

/// The resource is read by pass `p`.
pub open spec fn record_plain_input(m: MetadataModel, access: ResourceAccess, p: u32) -> MetadataModel {
    MetadataModel {
        template: m.template,
        pass_range: ResourcePassRange {
            first_used_in_pass_index: m.pass_range.first_used_in_pass_index,
            last_used_in_pass_index: p,
        },
        history: m.history,
        pass_accesses: seq_upsert(m.pass_accesses, p, access),
        current_access: m.current_access,
    }
}

pub open spec fn min_u32(a: u32, b: u32) -> u32 {
    if a > b { b } else { a }
}

pub open spec fn max_u32(a: u32, b: u32) -> u32 {
    if a < b { b } else { a }
}

/// Pass `p` reads the previous frame's contents of the resource.
pub open spec fn record_history_input(
    m: MetadataModel,
    access: ResourceAccess,
    empty_current: ResourceAccess,
    p: u32,
) -> MetadataModel {
    let h = match m.history {
        Some(h) => HistoryModel {
            pass_range: ResourcePassRange {
                first_used_in_pass_index: min_u32(h.pass_range.first_used_in_pass_index, p),
                last_used_in_pass_index: max_u32(h.pass_range.last_used_in_pass_index, p),
            },
            pass_accesses: seq_upsert(h.pass_accesses, p, access),
            current_access: h.current_access,
            initial_usage: h.initial_usage,
        },
        None => HistoryModel {
            pass_range: ResourcePassRange { first_used_in_pass_index: p, last_used_in_pass_index: p },
            pass_accesses: seq_upsert(Seq::empty(), p, access),
            current_access: empty_current,
            initial_usage: 0,
        },
    };
    MetadataModel {
        template: m.template,
        pass_range: m.pass_range,
        history: Some(h),
        pass_accesses: m.pass_accesses,
        current_access: m.current_access,
    }
}

/// The usage with which a graphics subpass reads an input, if the kind allows it.
pub open spec fn graphics_input_usage(is_buffer: bool, usage: InputUsage) -> Option<u32> {
    if is_buffer {
        match usage {
            InputUsage::Storage => Some(
                BUFFER_USAGE_VERTEX_SHADER_STORAGE_READ | BUFFER_USAGE_FRAGMENT_SHADER_STORAGE_READ,
            ),
            InputUsage::Local => Some(BUFFER_USAGE_COMPUTE_SHADER_CONSTANT),
            _ => None,
        }
    } else {
        match usage {
            InputUsage::Storage => Some(
                TEXTURE_USAGE_FRAGMENT_SHADER_STORAGE_READ | TEXTURE_USAGE_VERTEX_SHADER_STORAGE_READ,
            ),
            InputUsage::Sampled => Some(
                TEXTURE_USAGE_FRAGMENT_SHADER_SAMPLED | TEXTURE_USAGE_VERTEX_SHADER_SAMPLED,
            ),
            InputUsage::Local => Some(TEXTURE_USAGE_FRAGMENT_SHADER_LOCAL),
            InputUsage::Copy => None,
        }
    }
}

/// The usage with which a compute pass reads an input, if the kind allows it.
pub open spec fn compute_input_usage(is_buffer: bool, usage: InputUsage) -> Option<u32> {
    if is_buffer {
        match usage {
            InputUsage::Storage => Some(BUFFER_USAGE_COMPUTE_SHADER_STORAGE_READ),
            InputUsage::Local => Some(BUFFER_USAGE_COMPUTE_SHADER_CONSTANT),
            _ => None,
        }
    } else {
        match usage {
            InputUsage::Storage => Some(TEXTURE_USAGE_COMPUTE_SHADER_STORAGE_READ),
            InputUsage::Sampled => Some(TEXTURE_USAGE_COMPUTE_SHADER_SAMPLED),
            _ => None,
        }
    }
}

/// The usage with which a copy pass reads an input.
pub open spec fn copy_input_usage(is_buffer: bool) -> u32 {
    if is_buffer {
        BUFFER_USAGE_COPY_SRC
    } else {
        TEXTURE_USAGE_COPY_SRC
    }
}

/// An access whose usage and primary usage are `usage`.
pub open spec fn access_of(is_buffer: bool, usage: u32) -> ResourceAccess {
    if is_buffer {
        ResourceAccess::Buffer { usage, primary_usage: usage }
    } else {
        ResourceAccess::Texture { usage, primary_usage: usage }
    }
}

/// Records a read of `m` by pass `p`, of the history when asked.
pub open spec fn record_read(
    m: MetadataModel,
    is_history: bool,
    access: ResourceAccess,
    empty_current: ResourceAccess,
    p: u32,
) -> MetadataModel {
    if is_history {
        record_history_input(m, access, empty_current, p)
    } else {
        record_plain_input(m, access, p)
    }
}

/// The effect of one event of pass `p` on the resource table.
pub open spec fn apply_event(md: Map<u32, MetadataModel>, ev: GraphEvent, p: u32) -> Result<
    Map<u32, MetadataModel>,
    RenderGraphError,
> {
    match ev {
        GraphEvent::Output { name, template, access } => {
            let m = if md.dom().contains(name) {
                md[name]
            } else {
                new_metadata_model(template)
            };
            Ok(md.insert(name, record_output(m, access, p)))
        },
        GraphEvent::DepthInput { name, is_history } => {
            if !md.dom().contains(name) {
                Err(RenderGraphError::MissingResource { name })
            } else {
                let access = access_of(false, TEXTURE_USAGE_DEPTH_READ);
                Ok(md.insert(name, record_read(md[name], is_history, access, empty_access(false), p)))
            }
        },
        GraphEvent::GraphicsInput { input } => {
            let name = input.name;
            if !md.dom().contains(name) {
                Err(RenderGraphError::MissingResource { name })
            } else {
                let is_buffer = template_is_buffer(md[name].template);
                match graphics_input_usage(is_buffer, input.usage) {
                    None => Err(RenderGraphError::UnsupportedInputUsage { name }),
                    Some(usage) => if input.stage == PipelineStage::ComputeShader {
                        Err(RenderGraphError::IllegalInputStage { name })
                    } else {
                        Ok(
                            md.insert(
                                name,
                                record_read(
                                    md[name],
                                    input.is_history,
                                    access_of(is_buffer, usage),
                                    empty_access(is_buffer),
                                    p,
                                ),
                            ),
                        )
                    },
                }
            }
        },
        GraphEvent::ComputeInput { input } => {
            let name = input.name;
            if !md.dom().contains(name) {
                Err(RenderGraphError::MissingResource { name })
            } else {
                let is_buffer = template_is_buffer_for_compute(md[name].template);
                match compute_input_usage(is_buffer, input.usage) {
                    None => Err(RenderGraphError::UnsupportedInputUsage { name }),
                    Some(usage) => if input.stage != PipelineStage::ComputeShader {
                        Err(RenderGraphError::IllegalInputStage { name })
                    } else {
                        Ok(
                            md.insert(
                                name,
                                record_read(
                                    md[name],
                                    input.is_history,
                                    access_of(is_buffer, usage),
                                    empty_access(is_buffer),
                                    p,
                                ),
                            ),
                        )
                    },
                }
            }
        },
        GraphEvent::CopyInput { input } => {
            let name = input.name;
            if !md.dom().contains(name) {
                Err(RenderGraphError::MissingResource { name })
            } else {
                let is_buffer = template_is_buffer_for_compute(md[name].template);
                if input.stage != PipelineStage::ComputeShader {
                    Err(RenderGraphError::IllegalInputStage { name })
                } else {
                    Ok(
                        md.insert(
                            name,
                            record_read(
                                md[name],
                                input.is_history,
                                access_of(is_buffer, copy_input_usage(is_buffer)),
                                empty_access(is_buffer),
                                p,
                            ),
                        ),
                    )
                }
            }
        },
    }
}

/// The effect of a sequence of events of pass `p`, stopping at the first error.
pub open spec fn apply_events(md: Map<u32, MetadataModel>, evs: Seq<GraphEvent>, p: u32) -> Result<
    Map<u32, MetadataModel>,
    RenderGraphError,
>
    decreases evs.len(),
{
    if evs.len() == 0 {
        Ok(md)
    } else {
        match apply_events(md, evs.drop_last(), p) {
            Ok(m) => apply_event(m, evs.last(), p),
            Err(e) => Err(e),
        }
    }
}


/// Replacing the value at a key's position is an update of the key.
pub proof fn lemma_table_replace(t0: ResourceTable, t1: ResourceTable, i: int, name: u32, m2: ResourceMetadata)
    requires
        table_wf(t0),
        0 <= i < t0.entries().len(),
        t0.entries()[i].0 == name,
        t1.entries() == t0.entries().remove(i).insert(i, (name, m2)),
        m2.wf(),
    ensures
        table_wf(t1),
        t1@ == t0@.insert(name, m2),
        table_model(t1) == table_model(t0).insert(name, m2.model()),
{
    lemma_take_restore(t0.entries(), i, name, m2);
    assert(t1@ =~= t0@.insert(name, m2));
    assert(table_model(t1) =~= table_model(t0).insert(name, m2.model()));
}

/// Inserting a value is an update of the key.
pub proof fn lemma_table_insert(t0: ResourceTable, t1: ResourceTable, name: u32, m2: ResourceMetadata)
    requires
        table_wf(t0),
        t1.wf(),
        t1@ == t0@.insert(name, m2),
        m2.wf(),
    ensures
        table_wf(t1),
        table_model(t1) == table_model(t0).insert(name, m2.model()),
{
    assert(table_model(t1) =~= table_model(t0).insert(name, m2.model()));
}

fn record_output_exec(m: ResourceMetadata, access: ResourceAccess, p: u32) -> (r: ResourceMetadata)
    requires
        m.wf(),
    ensures
        r.wf(),
        r.model() == record_output(m.model(), access, p),
{
    let mut m = m;
    m.pass_range.first_used_in_pass_index = p;
    m.pass_accesses.insert(p, access);
    m
}

fn record_read_exec(
    m: ResourceMetadata,
    is_history: bool,
    access: ResourceAccess,
    empty_current: ResourceAccess,
    p: u32,
) -> (r: ResourceMetadata)
    requires
        m.wf(),
    ensures
        r.wf(),
        r.model() == record_read(m.model(), is_history, access, empty_current, p),
{
    let ResourceMetadata { template, pass_range, history, pass_accesses, current_access } = m;
    if is_history {
        let new_history = match history {
            Some(h) => {
                let HistoryResourceMetadata { pass_range: h_range, pass_accesses: h_accesses, current_access: h_current, initial_usage } = h;
                let mut h_range = h_range;
                if h_range.first_used_in_pass_index > p {
                    h_range.first_used_in_pass_index = p;
                }
                if h_range.last_used_in_pass_index < p {
                    h_range.last_used_in_pass_index = p;
                }
                let mut h_accesses = h_accesses;
                h_accesses.insert(p, access);
                HistoryResourceMetadata { pass_range: h_range, pass_accesses: h_accesses, current_access: h_current, initial_usage }
            },
            None => {
                let mut accesses = AssocTable::new();
                accesses.insert(p, access);
                HistoryResourceMetadata {
                    pass_range: ResourcePassRange { first_used_in_pass_index: p, last_used_in_pass_index: p },
                    pass_accesses: accesses,
                    current_access: empty_current,
                    initial_usage: 0,
                }
            },
        };
        ResourceMetadata { template, pass_range, history: Some(new_history), pass_accesses, current_access }
    } else {
        let mut pass_range = pass_range;
        pass_range.last_used_in_pass_index = p;
        let mut pass_accesses = pass_accesses;
        pass_accesses.insert(p, access);
        ResourceMetadata { template, pass_range, history, pass_accesses, current_access }
    }
}

fn graphics_input_usage_exec(is_buffer: bool, usage: InputUsage) -> (r: Option<u32>)
    ensures
        r == graphics_input_usage(is_buffer, usage),
{
    if is_buffer {
        match usage {
            InputUsage::Storage => Some(
                BUFFER_USAGE_VERTEX_SHADER_STORAGE_READ | BUFFER_USAGE_FRAGMENT_SHADER_STORAGE_READ,
            ),
            InputUsage::Local => Some(BUFFER_USAGE_COMPUTE_SHADER_CONSTANT),
            _ => None,
        }
    } else {
        match usage {
            InputUsage::Storage => Some(
                TEXTURE_USAGE_FRAGMENT_SHADER_STORAGE_READ | TEXTURE_USAGE_VERTEX_SHADER_STORAGE_READ,
            ),
            InputUsage::Sampled => Some(
                TEXTURE_USAGE_FRAGMENT_SHADER_SAMPLED | TEXTURE_USAGE_VERTEX_SHADER_SAMPLED,
            ),
            InputUsage::Local => Some(TEXTURE_USAGE_FRAGMENT_SHADER_LOCAL),
            InputUsage::Copy => None,
        }
    }
}

fn compute_input_usage_exec(is_buffer: bool, usage: InputUsage) -> (r: Option<u32>)
    ensures
        r == compute_input_usage(is_buffer, usage),
{
    if is_buffer {
        match usage {
            InputUsage::Storage => Some(BUFFER_USAGE_COMPUTE_SHADER_STORAGE_READ),
            InputUsage::Local => Some(BUFFER_USAGE_COMPUTE_SHADER_CONSTANT),
            _ => None,
        }
    } else {
        match usage {
            InputUsage::Storage => Some(TEXTURE_USAGE_COMPUTE_SHADER_STORAGE_READ),
            InputUsage::Sampled => Some(TEXTURE_USAGE_COMPUTE_SHADER_SAMPLED),
            _ => None,
        }
    }
}

fn access_of_exec(is_buffer: bool, usage: u32) -> (a: ResourceAccess)
    ensures
        a == access_of(is_buffer, usage),
{
    if is_buffer {
        ResourceAccess::Buffer { usage, primary_usage: usage }
    } else {
        ResourceAccess::Texture { usage, primary_usage: usage }
    }
}

/// Applies one event of pass `p` to the resource table.
pub fn apply_event_exec(table: &mut ResourceTable, ev: GraphEvent, p: u32) -> (r: Result<(), RenderGraphError>)
    requires
        table_wf(*old(table)),
    ensures
        match apply_event(table_model(*old(table)), ev, p) {
            Ok(m) => r is Ok && table_wf(*final(table)) && table_model(*final(table)) == m,
            Err(e) => r == Err::<(), RenderGraphError>(e),
        },
{
    let ghost t0 = *table;
    match ev {
        GraphEvent::Output { name, template, access } => {
            match table.take(name) {
                Some((i, m)) => {
                    let m2 = record_output_exec(m, access, p);
                    proof {
                        lemma_take_restore(t0.entries(), i as int, name, m2);
                    }
                    table.restore(i, name, m2);
                    proof {
                        lemma_table_replace(t0, *table, i as int, name, m2);
                    }
                },
                None => {
                    let m2 = record_output_exec(ResourceMetadata::new(template), access, p);
                    table.insert(name, m2);
                    proof {
                        lemma_table_insert(t0, *table, name, m2);
                    }
                },
            }
            Ok(())
        },
        GraphEvent::DepthInput { name, is_history } => {
            match table.take(name) {
                Some((i, m)) => {
                    let access = access_of_exec(false, TEXTURE_USAGE_DEPTH_READ);
                    let m2 = record_read_exec(m, is_history, access, make_empty_access(false), p);
                    proof {
                        lemma_take_restore(t0.entries(), i as int, name, m2);
                    }
                    table.restore(i, name, m2);
                    proof {
                        lemma_table_replace(t0, *table, i as int, name, m2);
                    }
                    Ok(())
                },
                None => Err(RenderGraphError::MissingResource { name }),
            }
        },
        GraphEvent::GraphicsInput { input } => {
            let name = input.name;
            match table.take(name) {
                Some((i, m)) => {
                    let is_buffer = match m.template {
                        VkResourceTemplate::Texture { .. } => false,
                        VkResourceTemplate::Buffer { .. } => true,
                        VkResourceTemplate::ExternalBuffer => true,
                        VkResourceTemplate::ExternalTexture { .. } => false,
                    };
                    match graphics_input_usage_exec(is_buffer, input.usage) {
                        None => Err(RenderGraphError::UnsupportedInputUsage { name }),
                        Some(usage) => {
                            if input.stage == PipelineStage::ComputeShader {
                                return Err(RenderGraphError::IllegalInputStage { name });
                            }
                            let access = access_of_exec(is_buffer, usage);
                            let m2 = record_read_exec(m, input.is_history, access, make_empty_access(is_buffer), p);
                            proof {
                                lemma_take_restore(t0.entries(), i as int, name, m2);
                            }
                            table.restore(i, name, m2);
                            proof {
                                lemma_table_replace(t0, *table, i as int, name, m2);
                            }
                            Ok(())
                        },
                    }
                },
                None => Err(RenderGraphError::MissingResource { name }),
            }
        },
        GraphEvent::ComputeInput { input } => {
            let name = input.name;
            match table.take(name) {
                Some((i, m)) => {
                    let is_buffer = match m.template {
                        VkResourceTemplate::Texture { .. } => false,
                        _ => true,
                    };
                    match compute_input_usage_exec(is_buffer, input.usage) {
                        None => Err(RenderGraphError::UnsupportedInputUsage { name }),
                        Some(usage) => {
                            if input.stage != PipelineStage::ComputeShader {
                                return Err(RenderGraphError::IllegalInputStage { name });
                            }
                            let access = access_of_exec(is_buffer, usage);
                            let m2 = record_read_exec(m, input.is_history, access, make_empty_access(is_buffer), p);
                            proof {
                                lemma_take_restore(t0.entries(), i as int, name, m2);
                            }
                            table.restore(i, name, m2);
                            proof {
                                lemma_table_replace(t0, *table, i as int, name, m2);
                            }
                            Ok(())
                        },
                    }
                },
                None => Err(RenderGraphError::MissingResource { name }),
            }
        },
        GraphEvent::CopyInput { input } => {
            let name = input.name;
            match table.take(name) {
                Some((i, m)) => {
                    let is_buffer = match m.template {
                        VkResourceTemplate::Texture { .. } => false,
                        _ => true,
                    };
                    if input.stage != PipelineStage::ComputeShader {
                        return Err(RenderGraphError::IllegalInputStage { name });
                    }
                    let usage = if is_buffer { BUFFER_USAGE_COPY_SRC } else { TEXTURE_USAGE_COPY_SRC };
                    let access = access_of_exec(is_buffer, usage);
                    let m2 = record_read_exec(m, input.is_history, access, make_empty_access(is_buffer), p);
                    proof {
                        lemma_take_restore(t0.entries(), i as int, name, m2);
                    }
                    table.restore(i, name, m2);
                    proof {
                        lemma_table_replace(t0, *table, i as int, name, m2);
                    }
                    Ok(())
                },
                None => Err(RenderGraphError::MissingResource { name }),
            }
        },
    }
}

pub proof fn lemma_apply_events_push(
    md: Map<u32, MetadataModel>,
    evs: Seq<GraphEvent>,
    ev: GraphEvent,
    p: u32,
)
    ensures
        apply_events(md, evs.push(ev), p) == (match apply_events(md, evs, p) {
            Ok(m) => apply_event(m, ev, p),
            Err(e) => Err(e),
        }),
{
    assert(evs.push(ev).drop_last() =~= evs);
}


/// An error of a prefix of the events is the error of all of them.
pub proof fn lemma_apply_events_err(md: Map<u32, MetadataModel>, s: Seq<GraphEvent>, t: Seq<GraphEvent>, p: u32)
    requires
        apply_events(md, s, p) is Err,
    ensures
        apply_events(md, s + t, p) == apply_events(md, s, p),
    decreases t.len(),
{
    if t.len() == 0 {
        assert(s + t =~= s);
    } else {
        lemma_apply_events_err(md, s, t.drop_last(), p);
        assert((s + t).drop_last() =~= s + t.drop_last());
    }
}

/// The extent of the back buffer: the swapchain's, scaled by one.
pub open spec fn backbuffer_extent() -> RenderPassTextureExtent {
    RenderPassTextureExtent::RelativeToSwapchain { width_bits: F32_ONE_BITS, height_bits: F32_ONE_BITS }
}

/// The template of the back buffer.
pub open spec fn backbuffer_template(format: Format, samples: SampleCount) -> VkResourceTemplate {
    VkResourceTemplate::Texture {
        name: BACK_BUFFER_ATTACHMENT_NAME,
        format,
        samples,
        extent: backbuffer_extent(),
        depth: 1,
        levels: 1,
        external: false,
        is_backbuffer: true,
    }
}

/// The event of an output of a graphics subpass.
pub open spec fn subpass_output_event(o: SubpassOutput, swapchain_format: Format, swapchain_samples: SampleCount) -> GraphEvent {
    match o {
        SubpassOutput::RenderTarget { name, format, samples, extent, depth, levels, external, .. } => GraphEvent::Output {
            name,
            template: VkResourceTemplate::Texture { name, format, samples, extent, depth, levels, external, is_backbuffer: false },
            access: access_of(false, TEXTURE_USAGE_RENDER_TARGET),
        },
        SubpassOutput::Backbuffer { .. } => GraphEvent::Output {
            name: BACK_BUFFER_ATTACHMENT_NAME,
            template: backbuffer_template(swapchain_format, swapchain_samples),
            access: access_of(false, TEXTURE_USAGE_RENDER_TARGET),
        },
    }
}

/// The events of the depth stencil attachment of a graphics subpass.
pub open spec fn depth_events(ds: DepthStencil) -> Seq<GraphEvent> {
    match ds {
        DepthStencil::Output { name, format, samples, extent, .. } => seq![GraphEvent::Output {
            name,
            template: VkResourceTemplate::Texture { name, format, samples, extent, depth: 1, levels: 1, external: false, is_backbuffer: false },
            access: access_of(false, depth_output_usage()),
        }],
        DepthStencil::Input { name, is_history } => seq![GraphEvent::DepthInput { name, is_history }],
        DepthStencil::NoAttachment => Seq::empty(),
    }
}

/// The events of a graphics subpass: its outputs, its depth stencil attachment, its inputs.
pub open spec fn subpass_events(sp: GraphicsSubpassInfo, swapchain_format: Format, swapchain_samples: SampleCount) -> Seq<GraphEvent> {
    sp.outputs@.map_values(|o: SubpassOutput| subpass_output_event(o, swapchain_format, swapchain_samples))
        + depth_events(sp.depth_stencil)
        + sp.inputs@.map_values(|i: PassInput| GraphEvent::GraphicsInput { input: i })
}

/// The events of a sequence of graphics subpasses, in order.
pub open spec fn subpasses_events(sps: Seq<GraphicsSubpassInfo>, swapchain_format: Format, swapchain_samples: SampleCount) -> Seq<GraphEvent>
    decreases sps.len(),
{
    if sps.len() == 0 {
        Seq::empty()
    } else {
        subpasses_events(sps.drop_last(), swapchain_format, swapchain_samples)
            + subpass_events(sps.last(), swapchain_format, swapchain_samples)
    }
}

/// The event of an output of a compute (`is_compute`) or copy pass, if it has one.
pub open spec fn output_event(o: Output, is_compute: bool) -> Option<GraphEvent> {
    let texture_usage = if is_compute { TEXTURE_USAGE_COMPUTE_SHADER_STORAGE_WRITE } else { TEXTURE_USAGE_BLIT_DST };
    let buffer_usage = if is_compute { BUFFER_USAGE_COMPUTE_SHADER_STORAGE_WRITE } else { BUFFER_USAGE_COPY_DST };
    match o {
        Output::RenderTarget { name, format, samples, extent, depth, levels, external, .. } => Some(GraphEvent::Output {
            name,
            template: VkResourceTemplate::Texture { name, format, samples, extent, depth, levels, external, is_backbuffer: false },
            access: access_of(false, texture_usage),
        }),
        Output::Backbuffer { .. } => Some(GraphEvent::Output {
            name: BACK_BUFFER_ATTACHMENT_NAME,
            template: backbuffer_template(Format::Unknown, SampleCount::Samples1),
            access: access_of(false, texture_usage),
        }),
        Output::Buffer { name, format, size, clear } => Some(GraphEvent::Output {
            name,
            template: VkResourceTemplate::Buffer { name, format, size, clear },
            access: access_of(true, buffer_usage),
        }),
        Output::DepthStencil { .. } => None,
    }
}

/// The events of the outputs of a compute or copy pass, in order.
pub open spec fn output_events(outs: Seq<Output>, is_compute: bool) -> Seq<GraphEvent>
    decreases outs.len(),
{
    if outs.len() == 0 {
        Seq::empty()
    } else {
        let prefix = output_events(outs.drop_last(), is_compute);
        match output_event(outs.last(), is_compute) {
            Some(e) => prefix.push(e),
            None => prefix,
        }
    }
}

/// The events of a pass, in the order the pass is recorded.
pub open spec fn pass_events(pass: PassInfo, swapchain_format: Format, swapchain_samples: SampleCount) -> Seq<GraphEvent> {
    match pass.pass_type {
        PassType::Graphics { subpasses } => subpasses_events(subpasses@, swapchain_format, swapchain_samples),
        PassType::Compute { inputs, outputs } => output_events(outputs@, true)
            + inputs@.map_values(|i: PassInput| GraphEvent::ComputeInput { input: i }),
        PassType::Copy { inputs, outputs } => output_events(outputs@, false)
            + inputs@.map_values(|i: PassInput| GraphEvent::CopyInput { input: i }),
    }
}

fn backbuffer_template_exec(format: Format, samples: SampleCount) -> (t: VkResourceTemplate)
    ensures
        t == backbuffer_template(format, samples),
{
    VkResourceTemplate::Texture {
        name: BACK_BUFFER_ATTACHMENT_NAME,
        format,
        samples,
        extent: RenderPassTextureExtent::RelativeToSwapchain { width_bits: F32_ONE_BITS, height_bits: F32_ONE_BITS },
        depth: 1,
        levels: 1,
        external: false,
        is_backbuffer: true,
    }
}

fn subpass_output_event_exec(o: SubpassOutput, swapchain_format: Format, swapchain_samples: SampleCount) -> (e: GraphEvent)
    ensures
        e == subpass_output_event(o, swapchain_format, swapchain_samples),
{
    match o {
        SubpassOutput::RenderTarget { name, format, samples, extent, depth, levels, external, .. } => GraphEvent::Output {
            name,
            template: VkResourceTemplate::Texture { name, format, samples, extent, depth, levels, external, is_backbuffer: false },
            access: access_of_exec(false, TEXTURE_USAGE_RENDER_TARGET),
        },
        SubpassOutput::Backbuffer { .. } => GraphEvent::Output {
            name: BACK_BUFFER_ATTACHMENT_NAME,
            template: backbuffer_template_exec(swapchain_format, swapchain_samples),
            access: access_of_exec(false, TEXTURE_USAGE_RENDER_TARGET),
        },
    }
}

fn output_event_exec(o: Output, is_compute: bool) -> (e: Option<GraphEvent>)
    ensures
        e == output_event(o, is_compute),
{
    let texture_usage = if is_compute { TEXTURE_USAGE_COMPUTE_SHADER_STORAGE_WRITE } else { TEXTURE_USAGE_BLIT_DST };
    let buffer_usage = if is_compute { BUFFER_USAGE_COMPUTE_SHADER_STORAGE_WRITE } else { BUFFER_USAGE_COPY_DST };
    match o {
        Output::RenderTarget { name, format, samples, extent, depth, levels, external, .. } => Some(GraphEvent::Output {
            name,
            template: VkResourceTemplate::Texture { name, format, samples, extent, depth, levels, external, is_backbuffer: false },
            access: access_of_exec(false, texture_usage),
        }),
        Output::Backbuffer { .. } => Some(GraphEvent::Output {
            name: BACK_BUFFER_ATTACHMENT_NAME,
            template: backbuffer_template_exec(Format::Unknown, SampleCount::Samples1),
            access: access_of_exec(false, texture_usage),
        }),
        Output::Buffer { name, format, size, clear } => Some(GraphEvent::Output {
            name,
            template: VkResourceTemplate::Buffer { name, format, size, clear },
            access: access_of_exec(true, buffer_usage),
        }),
        Output::DepthStencil { .. } => None,
    }
}

/// Applies `ev` and extends the ghost record of applied events.
fn step(
    table: &mut ResourceTable,
    ev: GraphEvent,
    p: u32,
    Ghost(md0): Ghost<Map<u32, MetadataModel>>,
    Ghost(evs): Ghost<Seq<GraphEvent>>,
) -> (r: Result<(), RenderGraphError>)
    requires
        table_wf(*old(table)),
        apply_events(md0, evs, p) == Ok::<Map<u32, MetadataModel>, RenderGraphError>(table_model(*old(table))),
    ensures
        r is Ok ==> table_wf(*final(table)) && apply_events(md0, evs.push(ev), p) == Ok::<Map<u32, MetadataModel>, RenderGraphError>(table_model(*final(table))),
        r matches Err(e) ==> apply_events(md0, evs.push(ev), p) == Err::<Map<u32, MetadataModel>, RenderGraphError>(e),
{
    proof {
        lemma_apply_events_push(md0, evs, ev, p);
    }
    apply_event_exec(table, ev, p)
}

/// Records pass `p` into the resource table: every output, depth stencil
/// attachment and input of the pass, in order.
pub fn record_pass(
    table: &mut ResourceTable,
    pass: &PassInfo,
    p: u32,
    swapchain_format: Format,
    swapchain_samples: SampleCount,
) -> (r: Result<(), RenderGraphError>)
    requires
        table_wf(*old(table)),
    ensures
        match apply_events(table_model(*old(table)), pass_events(*pass, swapchain_format, swapchain_samples), p) {
            Ok(m) => r is Ok && table_wf(*final(table)) && table_model(*final(table)) == m,
            Err(e) => r == Err::<(), RenderGraphError>(e),
        },
{
    let ghost md0 = table_model(*table);
    let ghost all = pass_events(*pass, swapchain_format, swapchain_samples);
    let ghost mut evs: Seq<GraphEvent> = Seq::empty();
    match &pass.pass_type {
        PassType::Graphics { subpasses } => {
            let mut s: usize = 0;
            while s < subpasses.len()
                invariant
                    s <= subpasses@.len(),
                    all == subpasses_events(subpasses@, swapchain_format, swapchain_samples),
                    all == pass_events(*pass, swapchain_format, swapchain_samples),
                    md0 == table_model(*old(table)),
                    table_wf(*table),
                    evs == subpasses_events(subpasses@.take(s as int), swapchain_format, swapchain_samples),
                    apply_events(md0, evs, p) == Ok::<Map<u32, MetadataModel>, RenderGraphError>(table_model(*table)),
                decreases subpasses@.len() - s,
            {
                let sp = &subpasses[s];
                let ghost base = evs;
                let ghost sp_evs = subpass_events(*sp, swapchain_format, swapchain_samples);
                proof {
                    assert(subpasses@.take(s as int + 1).drop_last() =~= subpasses@.take(s as int));
                    assert(subpasses_events(subpasses@.take(s as int + 1), swapchain_format, swapchain_samples) == base + sp_evs);
                }
                let mut j: usize = 0;
                while j < sp.outputs.len()
                    invariant
                        j <= sp.outputs@.len(),
                        s < subpasses@.len(),
                        *sp == subpasses@[s as int],
                        base == subpasses_events(subpasses@.take(s as int), swapchain_format, swapchain_samples),
                        sp_evs == subpass_events(*sp, swapchain_format, swapchain_samples),
                        all == subpasses_events(subpasses@, swapchain_format, swapchain_samples),
                        all == pass_events(*pass, swapchain_format, swapchain_samples),
                        md0 == table_model(*old(table)),
                        table_wf(*table),
                        evs == base + sp.outputs@.take(j as int).map_values(|o: SubpassOutput| subpass_output_event(o, swapchain_format, swapchain_samples)),
                        apply_events(md0, evs, p) == Ok::<Map<u32, MetadataModel>, RenderGraphError>(table_model(*table)),
                    decreases sp.outputs@.len() - j,
                {
                    let ev = subpass_output_event_exec(sp.outputs[j], swapchain_format, swapchain_samples);
                    let res = step(table, ev, p, Ghost(md0), Ghost(evs));
                    proof {
                        assert(sp.outputs@.take(j as int + 1).map_values(|o: SubpassOutput| subpass_output_event(o, swapchain_format, swapchain_samples))
                            =~= sp.outputs@.take(j as int).map_values(|o: SubpassOutput| subpass_output_event(o, swapchain_format, swapchain_samples)).push(ev));
                        evs = evs.push(ev);
                    }
                    if let Err(e) = res {
                        proof {
                            assert(evs =~= base + sp_evs.take(j as int + 1));
                            lemma_graphics_err(md0, subpasses@, s as int, j as int + 1, evs, p, swapchain_format, swapchain_samples);
                        }
                        return Err(e);
                    }
                    j += 1;
                }
                assert(sp.outputs@.take(sp.outputs@.len() as int) =~= sp.outputs@);
                let ghost after_outputs = evs;
                match sp.depth_stencil {
                    DepthStencil::Output { name, format, samples, extent, .. } => {
                        let ev = GraphEvent::Output {
                            name,
                            template: VkResourceTemplate::Texture { name, format, samples, extent, depth: 1, levels: 1, external: false, is_backbuffer: false },
                            access: access_of_exec(false, TEXTURE_USAGE_DEPTH_WRITE | TEXTURE_USAGE_DEPTH_READ),
                        };
                        let res = step(table, ev, p, Ghost(md0), Ghost(evs));
                        proof { evs = evs.push(ev); }
                        if let Err(e) = res {
                            proof {
                                assert(evs =~= base + sp_evs.take(sp.outputs@.len() as int + 1));
                                lemma_graphics_err(md0, subpasses@, s as int, sp.outputs@.len() as int + 1, evs, p, swapchain_format, swapchain_samples);
                            }
                            return Err(e);
                        }
                    },
                    DepthStencil::Input { name, is_history } => {
                        let ev = GraphEvent::DepthInput { name, is_history };
                        let res = step(table, ev, p, Ghost(md0), Ghost(evs));
                        proof { evs = evs.push(ev); }
                        if let Err(e) = res {
                            proof {
                                assert(evs =~= base + sp_evs.take(sp.outputs@.len() as int + 1));
                                lemma_graphics_err(md0, subpasses@, s as int, sp.outputs@.len() as int + 1, evs, p, swapchain_format, swapchain_samples);
                            }
                            return Err(e);
                        }
                    },
                    DepthStencil::NoAttachment => {},
                }
                proof {
                    assert(evs =~= after_outputs + depth_events(sp.depth_stencil));
                }
                let ghost after_depth = evs;
                let mut k: usize = 0;
                while k < sp.inputs.len()
                    invariant
                        k <= sp.inputs@.len(),
                        s < subpasses@.len(),
                        *sp == subpasses@[s as int],
                        base == subpasses_events(subpasses@.take(s as int), swapchain_format, swapchain_samples),
                        sp_evs == subpass_events(*sp, swapchain_format, swapchain_samples),
                        all == subpasses_events(subpasses@, swapchain_format, swapchain_samples),
                        all == pass_events(*pass, swapchain_format, swapchain_samples),
                        md0 == table_model(*old(table)),
                        after_depth == base + sp.outputs@.map_values(|o: SubpassOutput| subpass_output_event(o, swapchain_format, swapchain_samples)) + depth_events(sp.depth_stencil),
                        table_wf(*table),
                        evs == after_depth + sp.inputs@.take(k as int).map_values(|i: PassInput| GraphEvent::GraphicsInput { input: i }),
                        apply_events(md0, evs, p) == Ok::<Map<u32, MetadataModel>, RenderGraphError>(table_model(*table)),
                    decreases sp.inputs@.len() - k,
                {
                    let ev = GraphEvent::GraphicsInput { input: sp.inputs[k] };
                    let res = step(table, ev, p, Ghost(md0), Ghost(evs));
                    proof {
                        assert(sp.inputs@.take(k as int + 1).map_values(|i: PassInput| GraphEvent::GraphicsInput { input: i })
                            =~= sp.inputs@.take(k as int).map_values(|i: PassInput| GraphEvent::GraphicsInput { input: i }).push(ev));
                        evs = evs.push(ev);
                    }
                    if let Err(e) = res {
                        proof {
                            assert(evs =~= base + sp_evs.take(sp.outputs@.len() as int + depth_events(sp.depth_stencil).len() as int + k as int + 1));
                            lemma_graphics_err(md0, subpasses@, s as int, sp.outputs@.len() as int + depth_events(sp.depth_stencil).len() as int + k as int + 1, evs, p, swapchain_format, swapchain_samples);
                        }
                        return Err(e);
                    }
                    k += 1;
                }
                proof {
                    assert(sp.inputs@.take(sp.inputs@.len() as int) =~= sp.inputs@);
                    assert(evs =~= base + sp_evs);
                }
                s += 1;
            }
            proof {
                assert(subpasses@.take(subpasses@.len() as int) =~= subpasses@);
            }
            Ok(())
        },
        PassType::Compute { inputs, outputs } => {
            proof {
                assert(inputs@.map_values(|i: PassInput| input_event(i, true))
                    =~= inputs@.map_values(|i: PassInput| GraphEvent::ComputeInput { input: i }));
            }
            record_compute_copy(table, inputs, outputs, p, true, Ghost(md0))
        },
        PassType::Copy { inputs, outputs } => {
            proof {
                assert(inputs@.map_values(|i: PassInput| input_event(i, false))
                    =~= inputs@.map_values(|i: PassInput| GraphEvent::CopyInput { input: i }));
            }
            record_compute_copy(table, inputs, outputs, p, false, Ghost(md0))
        },
    }
}

/// The events of a compute (`is_compute`) or copy pass.
pub open spec fn compute_copy_events(inputs: Seq<PassInput>, outputs: Seq<Output>, is_compute: bool) -> Seq<GraphEvent> {
    output_events(outputs, is_compute) + inputs.map_values(|i: PassInput| input_event(i, is_compute))
}

pub open spec fn input_event(i: PassInput, is_compute: bool) -> GraphEvent {
    if is_compute {
        GraphEvent::ComputeInput { input: i }
    } else {
        GraphEvent::CopyInput { input: i }
    }
}

fn record_compute_copy(
    table: &mut ResourceTable,
    inputs: &Vec<PassInput>,
    outputs: &Vec<Output>,
    p: u32,
    is_compute: bool,
    Ghost(md0): Ghost<Map<u32, MetadataModel>>,
) -> (r: Result<(), RenderGraphError>)
    requires
        table_wf(*old(table)),
        md0 == table_model(*old(table)),
    ensures
        match apply_events(md0, compute_copy_events(inputs@, outputs@, is_compute), p) {
            Ok(m) => r is Ok && table_wf(*final(table)) && table_model(*final(table)) == m,
            Err(e) => r == Err::<(), RenderGraphError>(e),
        },
{
    let ghost all = compute_copy_events(inputs@, outputs@, is_compute);
    let ghost mut evs: Seq<GraphEvent> = Seq::empty();
    let mut j: usize = 0;
    while j < outputs.len()
        invariant
            j <= outputs@.len(),
            table_wf(*table),
            all == compute_copy_events(inputs@, outputs@, is_compute),
            evs == output_events(outputs@.take(j as int), is_compute),
            apply_events(md0, evs, p) == Ok::<Map<u32, MetadataModel>, RenderGraphError>(table_model(*table)),
        decreases outputs@.len() - j,
    {
        proof {
            assert(outputs@.take(j as int + 1).drop_last() =~= outputs@.take(j as int));
        }
        match output_event_exec(outputs[j], is_compute) {
            Some(ev) => {
                let res = step(table, ev, p, Ghost(md0), Ghost(evs));
                proof { evs = evs.push(ev); }
                if let Err(e) = res {
                    proof {
                        lemma_output_events_prefix(outputs@, j as int + 1, is_compute);
                        let rest = output_events(outputs@, is_compute).subrange(evs.len() as int, output_events(outputs@, is_compute).len() as int)
                            + inputs@.map_values(|i: PassInput| input_event(i, is_compute));
                        lemma_apply_events_err(md0, evs, rest, p);
                        assert(evs + rest =~= all);
                    }
                    return Err(e);
                }
            },
            None => {},
        }
        j += 1;
    }
    proof {
        assert(outputs@.take(outputs@.len() as int) =~= outputs@);
    }
    let ghost after_outputs = evs;
    let mut k: usize = 0;
    while k < inputs.len()
        invariant
            k <= inputs@.len(),
            table_wf(*table),
            all == compute_copy_events(inputs@, outputs@, is_compute),
            after_outputs == output_events(outputs@, is_compute),
            evs == after_outputs + inputs@.take(k as int).map_values(|i: PassInput| input_event(i, is_compute)),
            apply_events(md0, evs, p) == Ok::<Map<u32, MetadataModel>, RenderGraphError>(table_model(*table)),
        decreases inputs@.len() - k,
    {
        let ev = if is_compute {
            GraphEvent::ComputeInput { input: inputs[k] }
        } else {
            GraphEvent::CopyInput { input: inputs[k] }
        };
        let res = step(table, ev, p, Ghost(md0), Ghost(evs));
        proof {
            assert(inputs@.take(k as int + 1).map_values(|i: PassInput| input_event(i, is_compute))
                =~= inputs@.take(k as int).map_values(|i: PassInput| input_event(i, is_compute)).push(ev));
            evs = evs.push(ev);
        }
        if let Err(e) = res {
            proof {
                let rest = inputs@.map_values(|i: PassInput| input_event(i, is_compute)).subrange(k as int + 1, inputs@.len() as int);
                lemma_apply_events_err(md0, evs, rest, p);
                assert(evs + rest =~= all);
            }
            return Err(e);
        }
        k += 1;
    }
    proof {
        assert(inputs@.take(inputs@.len() as int) =~= inputs@);
        assert(evs =~= all);
    }
    Ok(())
}

/// The events of a prefix of the outputs are a prefix of the events of all outputs.
pub proof fn lemma_output_events_prefix(outs: Seq<Output>, n: int, is_compute: bool)
    requires
        0 <= n <= outs.len(),
    ensures
        output_events(outs.take(n), is_compute).len() <= output_events(outs, is_compute).len(),
        output_events(outs, is_compute).take(output_events(outs.take(n), is_compute).len() as int)
            == output_events(outs.take(n), is_compute),
    decreases outs.len() - n,
{
    if n < outs.len() {
        lemma_output_events_prefix(outs, n + 1, is_compute);
        assert(outs.take(n + 1).drop_last() =~= outs.take(n));
        let a = output_events(outs.take(n), is_compute);
        let b = output_events(outs.take(n + 1), is_compute);
        let full = output_events(outs, is_compute);
        assert(b.take(a.len() as int) =~= a);
        assert(full.take(a.len() as int) =~= full.take(b.len() as int).take(a.len() as int));
    } else {
        assert(outs.take(n) =~= outs);
    }
}


/// The events of the first `n` subpasses are a prefix of the events of all of them.
pub proof fn lemma_subpasses_events_prefix(sps: Seq<GraphicsSubpassInfo>, n: int, f: Format, c: SampleCount)
    requires
        0 <= n <= sps.len(),
    ensures
        subpasses_events(sps.take(n), f, c).len() <= subpasses_events(sps, f, c).len(),
        subpasses_events(sps, f, c).take(subpasses_events(sps.take(n), f, c).len() as int)
            == subpasses_events(sps.take(n), f, c),
    decreases sps.len() - n,
{
    if n < sps.len() {
        lemma_subpasses_events_prefix(sps, n + 1, f, c);
        assert(sps.take(n + 1).drop_last() =~= sps.take(n));
        let a = subpasses_events(sps.take(n), f, c);
        let b = subpasses_events(sps.take(n + 1), f, c);
        let full = subpasses_events(sps, f, c);
        assert(b.take(a.len() as int) =~= a);
        assert(full.take(a.len() as int) =~= full.take(b.len() as int).take(a.len() as int));
    } else {
        assert(sps.take(n) =~= sps);
    }
}

/// An error part way through subpass `s` is the error of the whole pass.
pub proof fn lemma_graphics_err(
    md0: Map<u32, MetadataModel>,
    sps: Seq<GraphicsSubpassInfo>,
    s: int,
    m: int,
    evs: Seq<GraphEvent>,
    p: u32,
    f: Format,
    c: SampleCount,
)
    requires
        0 <= s < sps.len(),
        0 <= m <= subpass_events(sps[s], f, c).len(),
        evs == subpasses_events(sps.take(s), f, c) + subpass_events(sps[s], f, c).take(m),
        apply_events(md0, evs, p) is Err,
    ensures
        apply_events(md0, subpasses_events(sps, f, c), p) == apply_events(md0, evs, p),
{
    lemma_subpasses_events_prefix(sps, s + 1, f, c);
    assert(sps.take(s + 1).drop_last() =~= sps.take(s));
    assert(sps.take(s + 1).last() == sps[s]);
    let b = subpasses_events(sps.take(s + 1), f, c);
    let all = subpasses_events(sps, f, c);
    assert(b == subpasses_events(sps.take(s), f, c) + subpass_events(sps[s], f, c));
    assert(all.take(evs.len() as int) =~= evs) by {
        assert(all.take(evs.len() as int) =~= all.take(b.len() as int).take(evs.len() as int));
        assert(b.take(evs.len() as int) =~= evs);
    }
    let rest = all.subrange(evs.len() as int, all.len() as int);
    lemma_apply_events_err(md0, evs, rest, p);
    assert(evs + rest =~= all);
}

} // verus!
