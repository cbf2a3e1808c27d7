//! Running a compiled render graph: which resources it makes, what each pass
//! binds and clears, how barrier templates name real resources, what a pass
//! may look up, and how the current and previous frame's resources trade
//! places after a frame.
use vstd::prelude::*;
use crate::table::{AssocTable, lemma_seq_to_map, lemma_take_restore, has_key};
use crate::graph_info::{ResourceName, Format, SampleCount, RenderPassTextureExtent, BACK_BUFFER_ATTACHMENT_NAME};
use crate::graph_resources::{
    BUFFER_USAGE_COMPUTE_SHADER_CONSTANT, BUFFER_USAGE_COMPUTE_SHADER_STORAGE_READ,
    BUFFER_USAGE_COMPUTE_SHADER_STORAGE_WRITE, BUFFER_USAGE_COPY_DST, BUFFER_USAGE_COPY_SRC,
    BUFFER_USAGE_FRAGMENT_SHADER_CONSTANT, BUFFER_USAGE_FRAGMENT_SHADER_STORAGE_READ,
    BUFFER_USAGE_FRAGMENT_SHADER_STORAGE_WRITE, BUFFER_USAGE_VERTEX_SHADER_CONSTANT,
    BUFFER_USAGE_VERTEX_SHADER_STORAGE_READ, BUFFER_USAGE_VERTEX_SHADER_STORAGE_WRITE,
    MetadataModel, ResourceMetadata, ResourceTable, TEXTURE_USAGE_COMPUTE_SHADER_SAMPLED,
    TEXTURE_USAGE_COMPUTE_SHADER_STORAGE_READ, TEXTURE_USAGE_COMPUTE_SHADER_STORAGE_WRITE,
    TEXTURE_USAGE_COPY_SRC, TEXTURE_USAGE_DEPTH_READ, TEXTURE_USAGE_DEPTH_WRITE,
    TEXTURE_USAGE_FRAGMENT_SHADER_LOCAL, TEXTURE_USAGE_FRAGMENT_SHADER_SAMPLED,
    TEXTURE_USAGE_FRAGMENT_SHADER_STORAGE_READ, TEXTURE_USAGE_FRAGMENT_SHADER_STORAGE_WRITE,
    TEXTURE_USAGE_RENDER_TARGET, TEXTURE_USAGE_VERTEX_SHADER_SAMPLED,
    TEXTURE_USAGE_VERTEX_SHADER_STORAGE_READ, TEXTURE_USAGE_VERTEX_SHADER_STORAGE_WRITE,
    VkResourceTemplate,
};
use crate::graph_barrier::VkBarrierTemplate;
use crate::vk_values as vk;

verus! {

/// A resource the graph made, named by the handles of its objects; a resource
/// with history has a second set for the previous frame.
#[derive(Clone, Copy, PartialEq, Eq, Structural, Debug)]
pub enum VkResource {
    Texture {
        texture: u64,
        texture_b: Option<u64>,
        view: u64,
        view_b: Option<u64>,
        name: ResourceName,
        format: Format,
        samples: SampleCount,
        width: u32,
        height: u32,
        depth: u32,
        levels: u32,
        external: bool,
    },
    Buffer { buffer: u64, buffer_b: Option<u64>, name: ResourceName, format: Option<Format>, size: u32, clear: bool },
}

/// A resource handed to the graph from outside.
#[derive(Clone, Copy, PartialEq, Eq, Structural, Debug)]
pub enum ExternalResource {
    Texture { view: u64, texture: u64, dimensions: TextureDimensions },
    Buffer(u64),
}

/// The size of a texture.
#[derive(Clone, Copy, PartialEq, Eq, Structural, Debug)]
pub struct TextureDimensions {
    pub width: u32,
    pub height: u32,
    pub depth: u32,
    pub array_count: u32,
    pub mip_levels: u32,
}

/// Why a pass could not look up a resource.
#[derive(Clone, Copy, PartialEq, Eq, Structural, Debug)]
pub enum RenderGraphResourceError {
    NotFound,
    NotAllowed,
    WrongResourceType,
    NoHistory,
}

/// A resource keeps a second copy for the previous frame where a pass reads
/// its history no earlier than the resource is first used.
pub open spec fn has_history_resource(m: MetadataModel) -> bool {
    match m.history {
        Some(h) => h.pass_range.first_used_in_pass_index >= m.pass_range.first_used_in_pass_index,
        None => false,
    }
}

pub fn has_history(m: &ResourceMetadata) -> (r: bool)
    ensures
        r == has_history_resource(m.model()),
{
    match &m.history {
        Some(h) => h.pass_range.first_used_in_pass_index >= m.pass_range.first_used_in_pass_index,
        None => false,
    }
}

/// The usages a texture of the graph is made with: sampled and copied from
/// everywhere; a depth format adds depth reads and writes, any other format
/// rendering and storage reads and writes.
pub open spec fn graph_texture_usage(format: Format) -> u32 {
    let base = TEXTURE_USAGE_VERTEX_SHADER_SAMPLED | TEXTURE_USAGE_FRAGMENT_SHADER_SAMPLED
        | TEXTURE_USAGE_COMPUTE_SHADER_SAMPLED | TEXTURE_USAGE_FRAGMENT_SHADER_LOCAL | TEXTURE_USAGE_COPY_SRC;
    if format.spec_is_depth() || format.spec_is_stencil() {
        base | (TEXTURE_USAGE_DEPTH_READ | TEXTURE_USAGE_DEPTH_WRITE)
    } else {
        base | (TEXTURE_USAGE_RENDER_TARGET | TEXTURE_USAGE_VERTEX_SHADER_STORAGE_WRITE
            | TEXTURE_USAGE_FRAGMENT_SHADER_STORAGE_WRITE | TEXTURE_USAGE_COMPUTE_SHADER_STORAGE_WRITE
            | TEXTURE_USAGE_VERTEX_SHADER_STORAGE_READ | TEXTURE_USAGE_FRAGMENT_SHADER_STORAGE_READ
            | TEXTURE_USAGE_COMPUTE_SHADER_STORAGE_READ)
    }
}

pub fn texture_usage_for(format: Format) -> (r: u32)
    ensures
        r == graph_texture_usage(format),
{
    let base = TEXTURE_USAGE_VERTEX_SHADER_SAMPLED | TEXTURE_USAGE_FRAGMENT_SHADER_SAMPLED
        | TEXTURE_USAGE_COMPUTE_SHADER_SAMPLED | TEXTURE_USAGE_FRAGMENT_SHADER_LOCAL | TEXTURE_USAGE_COPY_SRC;
    if format.is_depth() || format.is_stencil() {
        base | (TEXTURE_USAGE_DEPTH_READ | TEXTURE_USAGE_DEPTH_WRITE)
    } else {
        base | (TEXTURE_USAGE_RENDER_TARGET | TEXTURE_USAGE_VERTEX_SHADER_STORAGE_WRITE
            | TEXTURE_USAGE_FRAGMENT_SHADER_STORAGE_WRITE | TEXTURE_USAGE_COMPUTE_SHADER_STORAGE_WRITE
            | TEXTURE_USAGE_VERTEX_SHADER_STORAGE_READ | TEXTURE_USAGE_FRAGMENT_SHADER_STORAGE_READ
            | TEXTURE_USAGE_COMPUTE_SHADER_STORAGE_READ)
    }
}

/// The usages a buffer of the graph is made with: read and written as storage,
/// read as constants from every stage, copied from and into.
pub open spec fn graph_buffer_usage() -> u32 {
    BUFFER_USAGE_FRAGMENT_SHADER_STORAGE_READ | BUFFER_USAGE_FRAGMENT_SHADER_STORAGE_WRITE
        | BUFFER_USAGE_VERTEX_SHADER_STORAGE_READ | BUFFER_USAGE_VERTEX_SHADER_STORAGE_WRITE
        | BUFFER_USAGE_COMPUTE_SHADER_STORAGE_READ | BUFFER_USAGE_COMPUTE_SHADER_STORAGE_WRITE
        | BUFFER_USAGE_VERTEX_SHADER_CONSTANT | BUFFER_USAGE_FRAGMENT_SHADER_CONSTANT
        | BUFFER_USAGE_COMPUTE_SHADER_CONSTANT | BUFFER_USAGE_COPY_DST | BUFFER_USAGE_COPY_SRC
}

/// A resource the graph must make.
#[derive(Clone, Copy, PartialEq, Eq, Structural, Debug)]
pub enum ResourceRequest {
    Texture {
        name: ResourceName,
        format: Format,
        extent: RenderPassTextureExtent,
        depth: u32,
        levels: u32,
        samples: SampleCount,
        usage: u32,
        external: bool,
        with_history: bool,
    },
    Buffer { name: ResourceName, format: Option<Format>, size: u32, clear: bool, usage: u32, with_history: bool },
}

/// What the graph makes for a resource of its template: the textures and
/// buffers it describes, with a second copy where its history is read; nothing
/// for the back buffer and for what comes from outside.
pub open spec fn request_for(m: MetadataModel) -> Option<ResourceRequest> {
    match m.template {
        VkResourceTemplate::Texture { name, extent, format, depth, levels, samples, external, is_backbuffer } => {
            if is_backbuffer {
                None
            } else {
                Some(
                    ResourceRequest::Texture {
                        name,
                        format,
                        extent,
                        depth,
                        levels,
                        samples,
                        usage: graph_texture_usage(format),
                        external,
                        with_history: has_history_resource(m),
                    },
                )
            }
        },
        VkResourceTemplate::Buffer { name, format, size, clear } => Some(
            ResourceRequest::Buffer {
                name,
                format,
                size,
                clear,
                usage: graph_buffer_usage(),
                with_history: has_history_resource(m),
            },
        ),
        _ => None,
    }
}

pub fn resource_request(m: &ResourceMetadata) -> (r: Option<ResourceRequest>)
    ensures
        r == request_for(m.model()),
{
    let with_history = has_history(m);
    match m.template {
        VkResourceTemplate::Texture { name, extent, format, depth, levels, samples, external, is_backbuffer } => {
            if is_backbuffer {
                None
            } else {
                Some(
                    ResourceRequest::Texture {
                        name,
                        format,
                        extent,
                        depth,
                        levels,
                        samples,
                        usage: texture_usage_for(format),
                        external,
                        with_history,
                    },
                )
            }
        },
        VkResourceTemplate::Buffer { name, format, size, clear } => Some(
            ResourceRequest::Buffer {
                name,
                format,
                size,
                clear,
                usage: BUFFER_USAGE_FRAGMENT_SHADER_STORAGE_READ | BUFFER_USAGE_FRAGMENT_SHADER_STORAGE_WRITE
                    | BUFFER_USAGE_VERTEX_SHADER_STORAGE_READ | BUFFER_USAGE_VERTEX_SHADER_STORAGE_WRITE
                    | BUFFER_USAGE_COMPUTE_SHADER_STORAGE_READ | BUFFER_USAGE_COMPUTE_SHADER_STORAGE_WRITE
                    | BUFFER_USAGE_VERTEX_SHADER_CONSTANT | BUFFER_USAGE_FRAGMENT_SHADER_CONSTANT
                    | BUFFER_USAGE_COMPUTE_SHADER_CONSTANT | BUFFER_USAGE_COPY_DST | BUFFER_USAGE_COPY_SRC,
                with_history,
            },
        ),
        _ => None,
    }
}

/// Law: the graph makes a second copy of a resource exactly when a pass reads
/// its history no earlier than the resource is first used: every request has
/// `with_history` set if and only if the resource's history is read (it has
/// history metadata) and that history's first use is at or after the
/// resource's first use.
pub proof fn law_history_copy_exactly_when_history_read(m: MetadataModel)
    ensures
        request_for(m) matches Some(req) ==> ({
            let with_history = match req {
                ResourceRequest::Texture { with_history, .. } => with_history,
                ResourceRequest::Buffer { with_history, .. } => with_history,
            };
            with_history == (m.history matches Some(h)
                && h.pass_range.first_used_in_pass_index >= m.pass_range.first_used_in_pass_index)
        }),
{
}

/// The resources the graph makes, in the order of the template's resources.
pub open spec fn requests_upto(entries: Seq<(u32, MetadataModel)>, n: int) -> Seq<ResourceRequest>
    decreases n,
{
    if n <= 0 {
        Seq::empty()
    } else {
        let before = requests_upto(entries, n - 1);
        match request_for(entries[n - 1].1) {
            Some(r) => before.push(r),
            None => before,
        }
    }
}

pub fn resource_requests(resources: &ResourceTable) -> (r: Vec<ResourceRequest>)
    requires
        resources.wf(),
    ensures
        r@ == requests_upto(
            resources.entries().map_values(|e: (u32, ResourceMetadata)| (e.0, e.1.model())),
            resources.entries().len() as int,
        ),
{
    let ghost models = resources.entries().map_values(|e: (u32, ResourceMetadata)| (e.0, e.1.model()));
    let mut r: Vec<ResourceRequest> = Vec::new();
    let n = resources.len();
    let mut i: usize = 0;
    while i < n
        invariant
            i <= n,
            resources.wf(),
            n == resources.entries().len(),
            models == resources.entries().map_values(|e: (u32, ResourceMetadata)| (e.0, e.1.model())),
            r@ == requests_upto(models, i as int),
        decreases n - i,
    {
        let e = resources.entry(i);
        assert(models[i as int].1 == e.1.model());
        match resource_request(&e.1) {
            Some(req) => {
                r.push(req);
            },
            None => {},
        }
        i = i + 1;
    }
    r
}

/// How an attachment of a render pass is cleared.
#[derive(Clone, Copy, PartialEq, Eq, Structural, Debug)]
pub enum ClearKind {
    /// To transparent black.
    Color,
    /// To depth one, stencil zero.
    DepthStencil,
}

/// How the attachment `name` is cleared: depth and stencil formats to depth
/// one, everything else, the back buffer too, to black.
pub open spec fn clear_kind_of(resources: Map<u32, VkResource>, name: ResourceName) -> Option<ClearKind> {
    if name == BACK_BUFFER_ATTACHMENT_NAME {
        Some(ClearKind::Color)
    } else if resources.dom().contains(name) {
        match resources[name] {
            VkResource::Texture { format, .. } => if format.spec_is_depth() || format.spec_is_stencil() {
                Some(ClearKind::DepthStencil)
            } else {
                Some(ClearKind::Color)
            },
            VkResource::Buffer { .. } => None,
        }
    } else {
        None
    }
}

/// Every attachment of the pass is the back buffer or a texture of the graph.
pub open spec fn attachments_are_textures(resources: Map<u32, VkResource>, attachments: Seq<ResourceName>) -> bool {
    forall|i: int| 0 <= i < attachments.len() ==> (#[trigger] clear_kind_of(resources, attachments[i])) is Some
}

/// The clear values of a render pass, one per attachment in order.
pub fn clear_kinds(resources: &AssocTable<VkResource>, attachments: &Vec<ResourceName>) -> (r: Vec<ClearKind>)
    requires
        resources.wf(),
        attachments_are_textures(resources@, attachments@),
    ensures
        r.len() == attachments.len(),
        forall|i: int| 0 <= i < r.len() ==> Some(#[trigger] r@[i]) == clear_kind_of(resources@, attachments@[i]),
{
    let mut r: Vec<ClearKind> = Vec::new();
    let mut i: usize = 0;
    while i < attachments.len()
        invariant
            i <= attachments.len(),
            resources.wf(),
            attachments_are_textures(resources@, attachments@),
            r.len() == i,
            forall|j: int| 0 <= j < i ==> Some(#[trigger] r@[j]) == clear_kind_of(resources@, attachments@[j]),
        decreases attachments.len() - i,
    {
        let name = attachments[i];
        assert(clear_kind_of(resources@, attachments@[i as int]) is Some);
        if name == BACK_BUFFER_ATTACHMENT_NAME {
            r.push(ClearKind::Color);
        } else {
            match resources.get(name) {
                Some(VkResource::Texture { format, .. }) => {
                    if format.is_depth() || format.is_stencil() {
                        r.push(ClearKind::DepthStencil);
                    } else {
                        r.push(ClearKind::Color);
                    }
                },
                _ => {},
            }
        }
        i = i + 1;
    }
    r
}

/// The smaller of two sizes.
pub open spec fn min_size(a: u32, b: u32) -> u32 {
    if a <= b { a } else { b }
}

/// The size of the frame buffer of a pass over the attachments below `n`: the
/// smallest width and height among its textures; the back buffer counts
/// with the swapchain's size where `with_back_buffer` holds.
pub open spec fn frame_buffer_extent_upto(
    resources: Map<u32, VkResource>,
    attachments: Seq<ResourceName>,
    n: int,
    with_back_buffer: bool,
    swapchain_width: u32,
    swapchain_height: u32,
) -> (u32, u32)
    decreases n,
{
    if n <= 0 {
        (u32::MAX, u32::MAX)
    } else {
        let (w, h) = frame_buffer_extent_upto(resources, attachments, n - 1, with_back_buffer, swapchain_width, swapchain_height);
        let name = attachments[n - 1];
        if name == BACK_BUFFER_ATTACHMENT_NAME {
            if with_back_buffer {
                (min_size(w, swapchain_width), min_size(h, swapchain_height))
            } else {
                (w, h)
            }
        } else {
            match resources[name] {
                VkResource::Texture { width, height, .. } => (min_size(w, width), min_size(h, height)),
                _ => (w, h),
            }
        }
    }
}

/// The size of the frame buffer of a pass: the smallest width and height of
/// its attachments. `with_back_buffer` counts the back buffer with the size of
/// the swapchain, as the graph does when it checks a pass; the frame buffer
/// itself is made with the sizes of the graph's own textures alone.
pub fn frame_buffer_extent(
    resources: &AssocTable<VkResource>,
    attachments: &Vec<ResourceName>,
    with_back_buffer: bool,
    swapchain_width: u32,
    swapchain_height: u32,
) -> (r: (u32, u32))
    requires
        resources.wf(),
        attachments_are_textures(resources@, attachments@),
    ensures
        r == frame_buffer_extent_upto(
            resources@,
            attachments@,
            attachments.len() as int,
            with_back_buffer,
            swapchain_width,
            swapchain_height,
        ),
{
    let mut width: u32 = u32::MAX;
    let mut height: u32 = u32::MAX;
    let mut i: usize = 0;
    while i < attachments.len()
        invariant
            i <= attachments.len(),
            resources.wf(),
            attachments_are_textures(resources@, attachments@),
            (width, height) == frame_buffer_extent_upto(
                resources@,
                attachments@,
                i as int,
                with_back_buffer,
                swapchain_width,
                swapchain_height,
            ),
        decreases attachments.len() - i,
    {
        let name = attachments[i];
        assert(clear_kind_of(resources@, attachments@[i as int]) is Some);
        if name == BACK_BUFFER_ATTACHMENT_NAME {
            if with_back_buffer {
                width = if width <= swapchain_width { width } else { swapchain_width };
                height = if height <= swapchain_height { height } else { swapchain_height };
            }
        } else {
            match resources.get(name) {
                Some(VkResource::Texture { width: w, height: h, .. }) => {
                    width = if width <= *w { width } else { *w };
                    height = if height <= *h { height } else { *h };
                },
                _ => {},
            }
        }
        i = i + 1;
    }
    (width, height)
}

/// A barrier of a pass with its resource found: the texture or buffer of this
/// frame or of the previous one, an outside resource, or the back buffer.
#[derive(Clone, Copy, PartialEq, Eq, Structural, Debug)]
pub enum GraphBarrier {
    Texture { texture: u64, old_usage: u32, new_usage: u32, old_primary_usage: u32, new_primary_usage: u32 },
    Buffer { buffer: u64, old_usage: u32, new_usage: u32, old_primary_usage: u32, new_primary_usage: u32 },
}

/// The texture a barrier template names: the back buffer, an outside texture,
/// or the graph's texture of this or the previous frame.
pub open spec fn barrier_texture(
    resources: Map<u32, VkResource>,
    external: Map<u32, ExternalResource>,
    back_buffer: u64,
    name: ResourceName,
    is_history: bool,
) -> Option<u64> {
    if name == BACK_BUFFER_ATTACHMENT_NAME {
        Some(back_buffer)
    } else if external.dom().contains(name) {
        match external[name] {
            ExternalResource::Texture { texture, .. } => Some(texture),
            _ => None,
        }
    } else if resources.dom().contains(name) {
        match resources[name] {
            VkResource::Texture { texture, texture_b, .. } => if !is_history { Some(texture) } else { texture_b },
            _ => None,
        }
    } else {
        None
    }
}

/// The buffer a barrier template names: an outside buffer or the graph's
/// buffer of this or the previous frame.
pub open spec fn barrier_buffer(
    resources: Map<u32, VkResource>,
    external: Map<u32, ExternalResource>,
    name: ResourceName,
    is_history: bool,
) -> Option<u64> {
    if external.dom().contains(name) {
        match external[name] {
            ExternalResource::Buffer(buffer) => Some(buffer),
            _ => None,
        }
    } else if resources.dom().contains(name) {
        match resources[name] {
            VkResource::Buffer { buffer, buffer_b, .. } => if !is_history { Some(buffer) } else { buffer_b },
            _ => None,
        }
    } else {
        None
    }
}

pub open spec fn resolve_barrier(
    resources: Map<u32, VkResource>,
    external: Map<u32, ExternalResource>,
    back_buffer: u64,
    b: VkBarrierTemplate,
) -> Option<GraphBarrier> {
    match b {
        VkBarrierTemplate::Image { name, is_history, old_usage, new_usage, old_primary_usage, new_primary_usage } => {
            match barrier_texture(resources, external, back_buffer, name, is_history) {
                Some(texture) => Some(
                    GraphBarrier::Texture { texture, old_usage, new_usage, old_primary_usage, new_primary_usage },
                ),
                None => None,
            }
        },
        VkBarrierTemplate::Buffer { name, is_history, old_usage, new_usage, old_primary_usage, new_primary_usage } => {
            match barrier_buffer(resources, external, name, is_history) {
                Some(buffer) => Some(
                    GraphBarrier::Buffer { buffer, old_usage, new_usage, old_primary_usage, new_primary_usage },
                ),
                None => None,
            }
        },
    }
}

fn resolve_barrier_exec(
    resources: &AssocTable<VkResource>,
    external: &AssocTable<ExternalResource>,
    back_buffer: u64,
    b: VkBarrierTemplate,
) -> (r: Option<GraphBarrier>)
    requires
        resources.wf(),
        external.wf(),
    ensures
        r == resolve_barrier(resources@, external@, back_buffer, b),
{
    match b {
        VkBarrierTemplate::Image { name, is_history, old_usage, new_usage, old_primary_usage, new_primary_usage } => {
            let texture = if name == BACK_BUFFER_ATTACHMENT_NAME {
                Some(back_buffer)
            } else {
                match external.get(name) {
                    Some(ext) => match ext {
                        ExternalResource::Texture { texture, .. } => Some(*texture),
                        _ => None,
                    },
                    None => match resources.get(name) {
                        Some(VkResource::Texture { texture, texture_b, .. }) => if !is_history {
                            Some(*texture)
                        } else {
                            *texture_b
                        },
                        _ => None,
                    },
                }
            };
            match texture {
                Some(texture) => Some(
                    GraphBarrier::Texture { texture, old_usage, new_usage, old_primary_usage, new_primary_usage },
                ),
                None => None,
            }
        },
        VkBarrierTemplate::Buffer { name, is_history, old_usage, new_usage, old_primary_usage, new_primary_usage } => {
            let buffer = match external.get(name) {
                Some(ext) => match ext {
                    ExternalResource::Buffer(buffer) => Some(*buffer),
                    _ => None,
                },
                None => match resources.get(name) {
                    Some(VkResource::Buffer { buffer, buffer_b, .. }) => if !is_history {
                        Some(*buffer)
                    } else {
                        *buffer_b
                    },
                    _ => None,
                },
            };
            match buffer {
                Some(buffer) => Some(
                    GraphBarrier::Buffer { buffer, old_usage, new_usage, old_primary_usage, new_primary_usage },
                ),
                None => None,
            }
        },
    }
}

/// The barriers a pass records before it runs, one per barrier template in
/// order, each on the resource its template names.
pub fn emit_barrier(
    barrier_templates: &Vec<VkBarrierTemplate>,
    resources: &AssocTable<VkResource>,
    external: &AssocTable<ExternalResource>,
    back_buffer: u64,
) -> (r: Vec<GraphBarrier>)
    requires
        resources.wf(),
        external.wf(),
        forall|i: int| 0 <= i < barrier_templates.len() ==> resolve_barrier(resources@, external@, back_buffer, #[trigger] barrier_templates@[i]) is Some,
    ensures
        r.len() == barrier_templates.len(),
        forall|i: int| 0 <= i < r.len() ==> Some(#[trigger] r@[i]) == resolve_barrier(resources@, external@, back_buffer, barrier_templates@[i]),
{
    let mut r: Vec<GraphBarrier> = Vec::new();
    let mut i: usize = 0;
    while i < barrier_templates.len()
        invariant
            i <= barrier_templates.len(),
            resources.wf(),
            external.wf(),
            forall|j: int| 0 <= j < barrier_templates.len() ==> resolve_barrier(resources@, external@, back_buffer, #[trigger] barrier_templates@[j]) is Some,
            r.len() == i,
            forall|j: int| 0 <= j < i ==> Some(#[trigger] r@[j]) == resolve_barrier(resources@, external@, back_buffer, barrier_templates@[j]),
        decreases barrier_templates.len() - i,
    {
        let b = resolve_barrier_exec(resources, external, back_buffer, barrier_templates[i]);
        assert(b is Some);
        r.push(b.unwrap());
        i = i + 1;
    }
    r
}

/// The first transition of the previous frame's copy of a texture: from
/// nothing to the usage its history is first read with.
#[derive(Clone, Copy, PartialEq, Eq, Structural, Debug)]
pub struct HistoryTransition {
    pub texture: u64,
    pub initial_usage: u32,
}

/// The transition of the history copy of resource `m`, where it is a texture
/// with a history that is read.
pub open spec fn history_transition_of(resources: Map<u32, VkResource>, name: u32, m: MetadataModel) -> Option<HistoryTransition> {
    match m.history {
        None => None,
        Some(h) => if h.initial_usage == 0 || !resources.dom().contains(name) {
            None
        } else {
            match resources[name] {
                VkResource::Texture { texture_b: Some(t), .. } => Some(HistoryTransition { texture: t, initial_usage: h.initial_usage }),
                _ => None,
            }
        },
    }
}

/// The transitions of the first `n` resources of the template.
pub open spec fn history_transitions_upto(resources: Map<u32, VkResource>, entries: Seq<(u32, MetadataModel)>, n: int) -> Seq<HistoryTransition>
    decreases n,
{
    if n <= 0 {
        Seq::empty()
    } else {
        let before = history_transitions_upto(resources, entries, n - 1);
        match history_transition_of(resources, entries[n - 1].0, entries[n - 1].1) {
            Some(t) => before.push(t),
            None => before,
        }
    }
}

/// A texture whose history is read keeps a second copy in the graph.
pub open spec fn histories_made(resources: Map<u32, VkResource>, entries: Seq<(u32, MetadataModel)>) -> bool {
    forall|i: int| 0 <= i < entries.len() ==> {
        let (name, m) = #[trigger] entries[i];
        (m.history is Some && m.history->0.initial_usage != 0 && resources.dom().contains(name)) ==> match resources[name] {
            VkResource::Texture { texture_b, .. } => texture_b is Some,
            _ => true,
        }
    }
}

/// The transitions that make the previous frame's copies of the graph's
/// textures ready before the first frame, in the order of the template's
/// resources.
pub fn history_transitions(template_resources: &ResourceTable, resources: &AssocTable<VkResource>) -> (r: Vec<HistoryTransition>)
    requires
        template_resources.wf(),
        resources.wf(),
        histories_made(
            resources@,
            template_resources.entries().map_values(|e: (u32, ResourceMetadata)| (e.0, e.1.model())),
        ),
    ensures
        r@ == history_transitions_upto(
            resources@,
            template_resources.entries().map_values(|e: (u32, ResourceMetadata)| (e.0, e.1.model())),
            template_resources.entries().len() as int,
        ),
{
    let ghost models = template_resources.entries().map_values(|e: (u32, ResourceMetadata)| (e.0, e.1.model()));
    let mut r: Vec<HistoryTransition> = Vec::new();
    let n = template_resources.len();
    let mut i: usize = 0;
    while i < n
        invariant
            i <= n,
            template_resources.wf(),
            resources.wf(),
            n == template_resources.entries().len(),
            models == template_resources.entries().map_values(|e: (u32, ResourceMetadata)| (e.0, e.1.model())),
            histories_made(resources@, models),
            r@ == history_transitions_upto(resources@, models, i as int),
        decreases n - i,
    {
        let e = template_resources.entry(i);
        assert(models[i as int] == (e.0, e.1.model()));
        match &e.1.history {
            Some(h) => {
                if h.initial_usage != 0 {
                    match resources.get(e.0) {
                        Some(VkResource::Texture { texture_b, .. }) => {
                            match texture_b {
                                Some(t) => {
                                    r.push(HistoryTransition { texture: *t, initial_usage: h.initial_usage });
                                },
                                None => {},
                            }
                        },
                        _ => {},
                    }
                }
            },
            None => {},
        }
        i = i + 1;
    }
    r
}

/// A resource with its current and history copies traded.
pub open spec fn swapped(r: VkResource) -> VkResource {
    match r {
        VkResource::Texture {
            texture,
            texture_b: Some(tb),
            view,
            view_b: Some(vb),
            name,
            format,
            samples,
            width,
            height,
            depth,
            levels,
            external,
        } => VkResource::Texture {
            texture: tb,
            texture_b: Some(texture),
            view: vb,
            view_b: Some(view),
            name,
            format,
            samples,
            width,
            height,
            depth,
            levels,
            external,
        },
        VkResource::Buffer { buffer, buffer_b: Some(bb), name, format, size, clear } => VkResource::Buffer {
            buffer: bb,
            buffer_b: Some(buffer),
            name,
            format,
            size,
            clear,
        },
        _ => r,
    }
}

/// A texture has a history view exactly where it has a history texture.
pub open spec fn copies_paired(r: VkResource) -> bool {
    match r {
        VkResource::Texture { texture_b, view_b, .. } => texture_b is Some == view_b is Some,
        _ => true,
    }
}

fn swapped_exec(r: VkResource) -> (s: VkResource)
    requires
        copies_paired(r),
    ensures
        s == swapped(r),
        copies_paired(s),
{
    match r {
        VkResource::Texture { texture, texture_b: Some(tb), view, view_b: Some(vb), name, format, samples, width, height, depth, levels, external } => {
            VkResource::Texture {
                texture: tb,
                texture_b: Some(texture),
                view: vb,
                view_b: Some(view),
                name,
                format,
                samples,
                width,
                height,
                depth,
                levels,
                external,
            }
        },
        VkResource::Buffer { buffer, buffer_b: Some(bb), name, format, size, clear } => VkResource::Buffer {
            buffer: bb,
            buffer_b: Some(buffer),
            name,
            format,
            size,
            clear,
        },
        _ => r,
    }
}

/// After a frame, every resource with a history trades its copies: this
/// frame's becomes the previous frame's.
pub fn swap_history_resources(resources: &mut AssocTable<VkResource>)
    requires
        old(resources).wf(),
        forall|k: u32| old(resources)@.dom().contains(k) ==> copies_paired(#[trigger] old(resources)@[k]),
    ensures
        final(resources).wf(),
        final(resources)@.dom() == old(resources)@.dom(),
        forall|k: u32| #[trigger] final(resources)@.dom().contains(k) ==> final(resources)@[k] == swapped(old(resources)@[k]),
{
    let ghost e0 = resources.entries();
    proof {
        lemma_seq_to_map(e0);
        assert forall|j: int| 0 <= j < e0.len() implies copies_paired(#[trigger] e0[j].1) by {
            assert(resources@[e0[j].0] == e0[j].1);
        }
    }
    let n = resources.len();
    let mut i: usize = 0;
    while i < n
        invariant
            i <= n,
            n == e0.len(),
            resources.wf(),
            resources.entries().len() == n,
            forall|j: int| 0 <= j < e0.len() ==> copies_paired(#[trigger] e0[j].1),
            forall|j: int| 0 <= j < i ==> #[trigger] resources.entries()[j] == (e0[j].0, swapped(e0[j].1)),
            forall|j: int| i <= j < n ==> #[trigger] resources.entries()[j] == e0[j],
        decreases n - i,
    {
        let ghost before = resources.entries();
        let (k, v) = resources.take_at(i);
        let s = swapped_exec(v);
        proof {
            lemma_take_restore(before, i as int, k, s);
        }
        resources.restore(i, k, s);
        assert(resources.entries() =~= before.update(i as int, (k, s)));
        i = i + 1;
    }
    proof {
        let fin = resources.entries();
        lemma_seq_to_map(fin);
        lemma_seq_to_map(e0);
        assert forall|k: u32| #[trigger] resources@.dom().contains(k) implies resources@[k] == swapped(old(resources)@[k])
            && old(resources)@.dom().contains(k) by {
            let j = choose|j: int| 0 <= j < fin.len() && #[trigger] fin[j].0 == k;
            assert(fin[j] == (e0[j].0, swapped(e0[j].1)));
            assert(e0[j].0 == k);
            assert(has_key(e0, k));
        }
        assert forall|k: u32| #[trigger] old(resources)@.dom().contains(k) implies resources@.dom().contains(k) by {
            let j = choose|j: int| 0 <= j < e0.len() && #[trigger] e0[j].0 == k;
            assert(fin[j].0 == k);
            assert(has_key(fin, k));
        }
        assert(resources@.dom() =~= old(resources)@.dom());
    }
}


/// What a pass may look up while it records: the graph's resources, the
/// outside ones, the names the pass declared, and the swapchain image it
/// renders to.
pub struct VkRenderGraphResources {
    pub resources: AssocTable<VkResource>,
    pub external_resources: AssocTable<ExternalResource>,
    pub pass_resource_names: Vec<ResourceName>,
    /// The views of the swapchain images.
    pub swapchain_views: Vec<u64>,
    pub swapchain_width: u32,
    pub swapchain_height: u32,
    pub swapchain_image_index: u32,
}

impl VkRenderGraphResources {
    pub open spec fn wf(&self) -> bool {
        &&& self.resources.wf()
        &&& self.external_resources.wf()
        &&& self.swapchain_image_index < self.swapchain_views.len()
    }

    /// The view a pass gets for the texture `name`: the pass must have
    /// declared it; the back buffer is the current swapchain image; an outside
    /// resource must be a texture; a texture of the graph gives its view of
    /// this frame, or of the previous one where it keeps one.
    pub open spec fn texture_view_spec(&self, name: ResourceName, history: bool) -> Result<u64, RenderGraphResourceError> {
        if !self.pass_resource_names@.contains(name) {
            Err(RenderGraphResourceError::NotAllowed)
        } else if name == BACK_BUFFER_ATTACHMENT_NAME {
            Ok(self.swapchain_views@[self.swapchain_image_index as int])
        } else if !self.resources@.dom().contains(name) {
            if self.external_resources@.dom().contains(name) {
                match self.external_resources@[name] {
                    ExternalResource::Texture { view, .. } => Ok(view),
                    _ => Err(RenderGraphResourceError::WrongResourceType),
                }
            } else {
                Err(RenderGraphResourceError::NotFound)
            }
        } else {
            match self.resources@[name] {
                VkResource::Texture { view, view_b, .. } => if !history {
                    Ok(view)
                } else {
                    match view_b {
                        Some(v) => Ok(v),
                        None => Err(RenderGraphResourceError::NoHistory),
                    }
                },
                _ => Err(RenderGraphResourceError::WrongResourceType),
            }
        }
    }

    /// The buffer a pass gets for `name`, by the same rules.
    pub open spec fn buffer_spec(&self, name: ResourceName, history: bool) -> Result<u64, RenderGraphResourceError> {
        if !self.pass_resource_names@.contains(name) {
            Err(RenderGraphResourceError::NotAllowed)
        } else if !self.resources@.dom().contains(name) {
            if self.external_resources@.dom().contains(name) {
                match self.external_resources@[name] {
                    ExternalResource::Buffer(buffer) => Ok(buffer),
                    _ => Err(RenderGraphResourceError::WrongResourceType),
                }
            } else {
                Err(RenderGraphResourceError::NotFound)
            }
        } else {
            match self.resources@[name] {
                VkResource::Buffer { buffer, buffer_b, .. } => if !history {
                    Ok(buffer)
                } else {
                    match buffer_b {
                        Some(b) => Ok(b),
                        None => Err(RenderGraphResourceError::NoHistory),
                    }
                },
                _ => Err(RenderGraphResourceError::WrongResourceType),
            }
        }
    }

    /// The size of the texture `name`; any pass may ask, declared or not.
    pub open spec fn texture_dimensions_spec(&self, name: ResourceName) -> Result<TextureDimensions, RenderGraphResourceError> {
        if name == BACK_BUFFER_ATTACHMENT_NAME {
            Ok(
                TextureDimensions {
                    width: self.swapchain_width,
                    height: self.swapchain_height,
                    depth: 1,
                    array_count: 1,
                    mip_levels: 1,
                },
            )
        } else if !self.resources@.dom().contains(name) {
            if self.external_resources@.dom().contains(name) {
                match self.external_resources@[name] {
                    ExternalResource::Texture { dimensions, .. } => Ok(dimensions),
                    _ => Err(RenderGraphResourceError::WrongResourceType),
                }
            } else {
                Err(RenderGraphResourceError::NotFound)
            }
        } else {
            match self.resources@[name] {
                VkResource::Texture { width, height, depth, levels, .. } => Ok(
                    TextureDimensions { width, height, depth, array_count: 1, mip_levels: levels },
                ),
                _ => Err(RenderGraphResourceError::WrongResourceType),
            }
        }
    }

    fn declared(&self, name: ResourceName) -> (r: bool)
        ensures
            r == self.pass_resource_names@.contains(name),
    {
        let mut i: usize = 0;
        while i < self.pass_resource_names.len()
            invariant
                i <= self.pass_resource_names.len(),
                forall|j: int| 0 <= j < i ==> self.pass_resource_names@[j] != name,
            decreases self.pass_resource_names.len() - i,
        {
            if self.pass_resource_names[i] == name {
                return true;
            }
            i = i + 1;
        }
        false
    }

    pub fn get_texture_view(&self, name: ResourceName, history: bool) -> (r: Result<u64, RenderGraphResourceError>)
        requires
            self.wf(),
        ensures
            r == self.texture_view_spec(name, history),
    {
        if !self.declared(name) {
            return Err(RenderGraphResourceError::NotAllowed);
        }
        if name == BACK_BUFFER_ATTACHMENT_NAME {
            return Ok(self.swapchain_views[self.swapchain_image_index as usize]);
        }
        match self.resources.get(name) {
            None => match self.external_resources.get(name) {
                Some(ExternalResource::Texture { view, .. }) => Ok(*view),
                Some(_) => Err(RenderGraphResourceError::WrongResourceType),
                None => Err(RenderGraphResourceError::NotFound),
            },
            Some(VkResource::Texture { view, view_b, .. }) => {
                if !history {
                    Ok(*view)
                } else {
                    match view_b {
                        Some(v) => Ok(*v),
                        None => Err(RenderGraphResourceError::NoHistory),
                    }
                }
            },
            Some(_) => Err(RenderGraphResourceError::WrongResourceType),
        }
    }

    /// The view for sampling a texture.
    pub fn get_texture_srv(&self, name: ResourceName, history: bool) -> (r: Result<u64, RenderGraphResourceError>)
        requires
            self.wf(),
        ensures
            r == self.texture_view_spec(name, history),
    {
        self.get_texture_view(name, history)
    }

    /// The view for storing into a texture.
    pub fn get_texture_uav(&self, name: ResourceName, history: bool) -> (r: Result<u64, RenderGraphResourceError>)
        requires
            self.wf(),
        ensures
            r == self.texture_view_spec(name, history),
    {
        self.get_texture_view(name, history)
    }

    pub fn get_buffer(&self, name: ResourceName, history: bool) -> (r: Result<u64, RenderGraphResourceError>)
        requires
            self.wf(),
        ensures
            r == self.buffer_spec(name, history),
    {
        if !self.declared(name) {
            return Err(RenderGraphResourceError::NotAllowed);
        }
        match self.resources.get(name) {
            None => match self.external_resources.get(name) {
                Some(ExternalResource::Buffer(buffer)) => Ok(*buffer),
                Some(_) => Err(RenderGraphResourceError::WrongResourceType),
                None => Err(RenderGraphResourceError::NotFound),
            },
            Some(VkResource::Buffer { buffer, buffer_b, .. }) => {
                if !history {
                    Ok(*buffer)
                } else {
                    match buffer_b {
                        Some(b) => Ok(*b),
                        None => Err(RenderGraphResourceError::NoHistory),
                    }
                }
            },
            Some(_) => Err(RenderGraphResourceError::WrongResourceType),
        }
    }

    pub fn texture_dimensions(&self, name: ResourceName) -> (r: Result<TextureDimensions, RenderGraphResourceError>)
        requires
            self.wf(),
        ensures
            r == self.texture_dimensions_spec(name),
    {
        if name == BACK_BUFFER_ATTACHMENT_NAME {
            return Ok(
                TextureDimensions {
                    width: self.swapchain_width,
                    height: self.swapchain_height,
                    depth: 1,
                    array_count: 1,
                    mip_levels: 1,
                },
            );
        }
        match self.resources.get(name) {
            None => match self.external_resources.get(name) {
                Some(ExternalResource::Texture { dimensions, .. }) => Ok(*dimensions),
                Some(_) => Err(RenderGraphResourceError::WrongResourceType),
                None => Err(RenderGraphResourceError::NotFound),
            },
            Some(VkResource::Texture { width, height, depth, levels, .. }) => Ok(
                TextureDimensions { width: *width, height: *height, depth: *depth, array_count: 1, mip_levels: *levels },
            ),
            Some(_) => Err(RenderGraphResourceError::WrongResourceType),
        }
    }
}

/// Why a frame could not be rendered.
#[derive(Clone, Copy, PartialEq, Eq, Structural, Debug)]
pub enum FrameError {
    SurfaceLost,
    Other,
}

/// Whether a frame that renders to the swapchain can start: not on a lost
/// surface, not on a swapchain that is not fine.
pub open spec fn frame_start(surface_lost: bool, state_okay: bool) -> Result<(), FrameError> {
    if surface_lost {
        Err(FrameError::SurfaceLost)
    } else if !state_okay {
        Err(FrameError::Other)
    } else {
        Ok(())
    }
}

pub fn check_frame_start(surface_lost: bool, state_okay: bool) -> (r: Result<(), FrameError>)
    ensures
        r == frame_start(surface_lost, state_okay),
{
    if surface_lost {
        Err(FrameError::SurfaceLost)
    } else if !state_okay {
        Err(FrameError::Other)
    } else {
        Ok(())
    }
}

/// The error a frame ends with when no back buffer could be acquired: a lost
/// surface is lost, an outdated swapchain is another error (lost on Android).
pub open spec fn acquire_error(result: i32, android: bool) -> FrameError {
    if result == vk::RESULT_ERROR_OUT_OF_DATE_KHR {
        if android { FrameError::SurfaceLost } else { FrameError::Other }
    } else {
        FrameError::SurfaceLost
    }
}

/// Acquiring fails with only these two results.
pub open spec fn is_acquire_failure(result: i32) -> bool {
    result == vk::RESULT_ERROR_OUT_OF_DATE_KHR || result == vk::RESULT_ERROR_SURFACE_LOST_KHR
}

pub fn acquire_error_for(result: i32, android: bool) -> (r: FrameError)
    requires
        is_acquire_failure(result),
    ensures
        r == acquire_error(result, android),
{
    if result == vk::RESULT_ERROR_OUT_OF_DATE_KHR {
        if android {
            FrameError::SurfaceLost
        } else {
            FrameError::Other
        }
    } else {
        FrameError::SurfaceLost
    }
}

/// How a pass's work is submitted: a pass that renders to the swapchain waits
/// for the acquired image, signals that the frame is done, and fences the
/// frame; any other pass does none of that.
#[derive(Clone, Copy, PartialEq, Eq, Structural, Debug)]
pub struct SubmissionSync {
    pub wait_for_acquire: bool,
    pub signal_done: bool,
    pub fence: bool,
}

pub fn submission_sync(renders_to_swapchain: bool) -> (r: SubmissionSync)
    ensures
        r == (SubmissionSync {
            wait_for_acquire: renders_to_swapchain,
            signal_done: renders_to_swapchain,
            fence: renders_to_swapchain,
        }),
{
    SubmissionSync { wait_for_acquire: renders_to_swapchain, signal_done: renders_to_swapchain, fence: renders_to_swapchain }
}

/// The barrier that hands the swapchain image of a compute or copy pass to
/// presentation.
#[derive(Clone, Copy, PartialEq, Eq, Structural, Debug)]
pub struct PresentBarrier {
    pub src_stage: u32,
    pub dst_stage: u32,
    pub src_access: u32,
    pub dst_access: u32,
    pub old_layout: i32,
    pub new_layout: i32,
    pub aspect_mask: u32,
    pub level_count: u32,
    pub layer_count: u32,
    pub image: u64,
}

/// After a compute pass the image was written as storage in the general
/// layout, after a copy pass as a transfer destination; presentation reads it
/// in the present layout.
pub open spec fn present_barrier_for(is_compute: bool, format: Format, mip_levels: u32, array_length: u32, image: u64) -> PresentBarrier {
    PresentBarrier {
        src_stage: if is_compute { vk::PIPELINE_STAGE_COMPUTE_SHADER } else { vk::PIPELINE_STAGE_TRANSFER },
        dst_stage: vk::PIPELINE_STAGE_ALL_COMMANDS,
        src_access: if is_compute { vk::ACCESS_SHADER_WRITE } else { vk::ACCESS_TRANSFER_WRITE },
        dst_access: vk::ACCESS_MEMORY_READ,
        old_layout: if is_compute { vk::IMAGE_LAYOUT_GENERAL } else { vk::IMAGE_LAYOUT_TRANSFER_DST_OPTIMAL },
        new_layout: vk::IMAGE_LAYOUT_PRESENT_SRC_KHR,
        aspect_mask: if format.spec_is_depth() && format.spec_is_stencil() {
            vk::IMAGE_ASPECT_DEPTH | vk::IMAGE_ASPECT_STENCIL
        } else if format.spec_is_depth() {
            vk::IMAGE_ASPECT_DEPTH
        } else {
            vk::IMAGE_ASPECT_COLOR
        },
        level_count: mip_levels,
        layer_count: array_length,
        image,
    }
}

pub fn present_barrier(is_compute: bool, format: Format, mip_levels: u32, array_length: u32, image: u64) -> (r: PresentBarrier)
    ensures
        r == present_barrier_for(is_compute, format, mip_levels, array_length, image),
{
    PresentBarrier {
        src_stage: if is_compute { vk::PIPELINE_STAGE_COMPUTE_SHADER } else { vk::PIPELINE_STAGE_TRANSFER },
        dst_stage: vk::PIPELINE_STAGE_ALL_COMMANDS,
        src_access: if is_compute { vk::ACCESS_SHADER_WRITE } else { vk::ACCESS_TRANSFER_WRITE },
        dst_access: vk::ACCESS_MEMORY_READ,
        old_layout: if is_compute { vk::IMAGE_LAYOUT_GENERAL } else { vk::IMAGE_LAYOUT_TRANSFER_DST_OPTIMAL },
        new_layout: vk::IMAGE_LAYOUT_PRESENT_SRC_KHR,
        aspect_mask: if format.is_depth() && format.is_stencil() {
            vk::IMAGE_ASPECT_DEPTH | vk::IMAGE_ASPECT_STENCIL
        } else if format.is_depth() {
            vk::IMAGE_ASPECT_DEPTH
        } else {
            vk::IMAGE_ASPECT_COLOR
        },
        level_count: mip_levels,
        layer_count: array_length,
        image,
    }
}

/// The frame buffers made so far, by the views they were made of.
pub struct FrameBufferCache {
    pub entries: Vec<(Vec<u64>, u64)>,
}

/// The first frame buffer in `cache` made of exactly the views `key`.
pub open spec fn cached_frame_buffer(cache: Seq<(Seq<u64>, u64)>, key: Seq<u64>) -> Option<u64>
    decreases cache.len(),
{
    if cache.len() == 0 {
        None
    } else {
        match cached_frame_buffer(cache.drop_last(), key) {
            Some(fb) => Some(fb),
            None => if cache.last().0 == key { Some(cache.last().1) } else { None },
        }
    }
}

/// The frame buffer a pass uses and the cache after it: the cached one made
/// of the same views, or else `made`, which is then cached.
pub open spec fn frame_buffer_for(cache: Seq<(Seq<u64>, u64)>, key: Seq<u64>, made: u64) -> (Seq<(Seq<u64>, u64)>, u64) {
    match cached_frame_buffer(cache, key) {
        Some(fb) => (cache, fb),
        None => (cache.push((key, made)), made),
    }
}

proof fn lemma_cached_prefix(s: Seq<(Seq<u64>, u64)>, key: Seq<u64>, n: int)
    requires
        0 <= n <= s.len(),
        cached_frame_buffer(s.take(n), key) is Some,
    ensures
        cached_frame_buffer(s, key) == cached_frame_buffer(s.take(n), key),
    decreases s.len() - n,
{
    if n < s.len() {
        assert(s.take(n + 1).drop_last() =~= s.take(n));
        lemma_cached_prefix(s, key, n + 1);
    } else {
        assert(s.take(n) =~= s);
    }
}

impl FrameBufferCache {
    pub open spec fn model(&self) -> Seq<(Seq<u64>, u64)> {
        self.entries@.map_values(|e: (Vec<u64>, u64)| (e.0@, e.1))
    }

    pub fn new() -> (r: Self)
        ensures
            r.model().len() == 0,
    {
        FrameBufferCache { entries: Vec::new() }
    }

    /// The frame buffer made of exactly these views, if one was made.
    pub fn lookup(&self, key: &Vec<u64>) -> (r: Option<u64>)
        ensures
            r == cached_frame_buffer(self.model(), key@),
    {
        let mut i: usize = 0;
        while i < self.entries.len()
            invariant
                i <= self.entries.len(),
                cached_frame_buffer(self.model().take(i as int), key@) is None,
            decreases self.entries.len() - i,
        {
            let e = &self.entries[i];
            assert(self.model()[i as int] == (e.0@, e.1));
            assert(self.model().take(i as int + 1).drop_last() =~= self.model().take(i as int));
            if vec_eq(&e.0, key) {
                proof {
                    lemma_cached_prefix(self.model(), key@, i as int + 1);
                }
                return Some(e.1);
            }
            i = i + 1;
        }
        assert(self.model().take(self.entries.len() as int) =~= self.model());
        None
    }

    /// Records the frame buffer made of these views.
    pub fn insert(&mut self, key: Vec<u64>, frame_buffer: u64)
        ensures
            final(self).model() == old(self).model().push((key@, frame_buffer)),
    {
        let ghost k = key@;
        self.entries.push((key, frame_buffer));
        assert(self.model() =~= old(self).model().push((k, frame_buffer)));
    }
}

/// Law: a pass that asks twice for the frame buffer of the same views gets the
/// same frame buffer, and the second time the cache is left unchanged, however
/// a newly made one was named.
pub proof fn law_frame_buffer_cached(cache: Seq<(Seq<u64>, u64)>, key: Seq<u64>, made_first: u64, made_second: u64)
    ensures
        ({
            let (after_first, first) = frame_buffer_for(cache, key, made_first);
            let (after_second, second) = frame_buffer_for(after_first, key, made_second);
            &&& second == first
            &&& after_second == after_first
        }),
{
    if cached_frame_buffer(cache, key) is None {
        let after = cache.push((key, made_first));
        assert(after.drop_last() =~= cache);
        assert(cached_frame_buffer(after, key) == Some(made_first));
    }
}

fn vec_eq(a: &Vec<u64>, b: &Vec<u64>) -> (r: bool)
    ensures
        r == (a@ == b@),
{
    if a.len() != b.len() {
        return false;
    }
    let mut i: usize = 0;
    while i < a.len()
        invariant
            i <= a.len(),
            a.len() == b.len(),
            forall|j: int| 0 <= j < i ==> a@[j] == b@[j],
        decreases a.len() - i,
    {
        if a[i] != b[i] {
            return false;
        }
        i = i + 1;
    }
    assert(a@ =~= b@);
    true
}

/// The views a frame buffer of a pass is made of: the swapchain's view for the
/// back buffer and this frame's view of each texture.
pub open spec fn frame_buffer_key_of(resources: Map<u32, VkResource>, attachments: Seq<ResourceName>, back_buffer_view: u64) -> Seq<u64> {
    Seq::new(
        attachments.len(),
        |i: int| if attachments[i] == BACK_BUFFER_ATTACHMENT_NAME {
            back_buffer_view
        } else {
            match resources[attachments[i]] {
                VkResource::Texture { view, .. } => view,
                _ => 0,
            }
        },
    )
}

pub fn frame_buffer_key(resources: &AssocTable<VkResource>, attachments: &Vec<ResourceName>, back_buffer_view: u64) -> (r: Vec<u64>)
    requires
        resources.wf(),
        attachments_are_textures(resources@, attachments@),
    ensures
        r@ == frame_buffer_key_of(resources@, attachments@, back_buffer_view),
{
    let mut r: Vec<u64> = Vec::new();
    let mut i: usize = 0;
    while i < attachments.len()
        invariant
            i <= attachments.len(),
            resources.wf(),
            attachments_are_textures(resources@, attachments@),
            r@ == frame_buffer_key_of(resources@, attachments@, back_buffer_view).take(i as int),
        decreases attachments.len() - i,
    {
        let name = attachments[i];
        assert(clear_kind_of(resources@, attachments@[i as int]) is Some);
        if name == BACK_BUFFER_ATTACHMENT_NAME {
            r.push(back_buffer_view);
        } else {
            match resources.get(name) {
                Some(VkResource::Texture { view, .. }) => {
                    r.push(*view);
                },
                _ => {
                    r.push(0);
                },
            }
        }
        assert(r@ =~= frame_buffer_key_of(resources@, attachments@, back_buffer_view).take(i as int + 1));
        i = i + 1;
    }
    assert(r@ =~= frame_buffer_key_of(resources@, attachments@, back_buffer_view));
    r
}


/// Law: trading a resource's copies twice gives back the resource; after two
/// frames every resource with a history is where it started.
pub proof fn law_swap_twice(r: VkResource)
    requires
        copies_paired(r),
    ensures
        swapped(swapped(r)) == r,
{
}

} // verus!
