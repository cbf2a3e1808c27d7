//! The template of each pass: the barriers it needs and, for a graphics pass,
//! the render pass (attachments with their load and store operations, and the
//! attachment references of each subpass).
use vstd::prelude::*;
use crate::fold::{fold_res, lemma_fold_take, lemma_fold_err, lemma_fold_all};
use crate::table::{AssocTable, seq_upsert};
use crate::graph_info::{
    ResourceName, Format, SampleCount, PassInput, InputUsage, PipelineStage, SubpassOutput,
    DepthStencil, GraphicsSubpassInfo, Output, BACK_BUFFER_ATTACHMENT_NAME,
};
use crate::graph_resources::{
    MetadataModel, ResourceTable, VkResourceTemplate, RenderGraphError, table_wf, table_model,
};
use crate::graph_barrier::{VkBarrierTemplate, lookup, table_barrier, build_barrier};

verus! {

/// The stages of a render pass that read an input attachment.
pub const RENDER_PASS_STAGE_VERTEX: u32 = 0x1u32;
pub const RENDER_PASS_STAGE_FRAGMENT: u32 = 0x2u32;
pub const RENDER_PASS_STAGE_BOTH: u32 = 0x3u32;

/// What happens to an attachment's contents at the start of a render pass.
#[derive(Clone, Copy, PartialEq, Eq, Structural, Debug)]
pub enum LoadOp {
    Load,
    Clear,
    DontCare,
}

/// What happens to an attachment's contents at the end of a render pass.
#[derive(Clone, Copy, PartialEq, Eq, Structural, Debug)]
pub enum StoreOp {
    Store,
    DontCare,
}

/// An attachment of a render pass.
#[derive(Clone, Copy, PartialEq, Eq, Structural, Debug)]
pub struct AttachmentInfo {
    pub format: Format,
    pub samples: SampleCount,
    pub load_op: LoadOp,
    pub store_op: StoreOp,
    pub stencil_load_op: LoadOp,
    pub stencil_store_op: StoreOp,
}

/// An input attachment of a subpass.
#[derive(Clone, Copy, PartialEq, Eq, Structural, Debug)]
pub struct AttachmentRef {
    pub index: u32,
    pub pipeline_stage: u32,
}

/// A color attachment of a subpass.
#[derive(Clone, Copy, PartialEq, Eq, Structural, Debug)]
pub struct OutputAttachmentRef {
    pub index: u32,
    pub resolve_attachment_index: Option<u32>,
}

/// The depth stencil attachment of a subpass.
#[derive(Clone, Copy, PartialEq, Eq, Structural, Debug)]
pub struct DepthStencilAttachmentRef {
    pub index: u32,
    pub read_only: bool,
}

/// A subpass of a render pass.
pub struct SubpassInfo {
    pub input_attachments: Vec<AttachmentRef>,
    pub output_color_attachments: Vec<OutputAttachmentRef>,
    pub depth_stencil_attachment: Option<DepthStencilAttachmentRef>,
}

/// A render pass: its attachments and subpasses.
pub struct RenderPassInfo {
    pub attachments: Vec<AttachmentInfo>,
    pub subpasses: Vec<SubpassInfo>,
}

/// The value of a subpass.
pub struct SubpassModel {
    pub inputs: Seq<AttachmentRef>,
    pub outputs: Seq<OutputAttachmentRef>,
    pub depth: Option<DepthStencilAttachmentRef>,
}

impl SubpassInfo {
    pub open spec fn model(&self) -> SubpassModel {
        SubpassModel {
            inputs: self.input_attachments@,
            outputs: self.output_color_attachments@,
            depth: self.depth_stencil_attachment,
        }
    }
}

pub open spec fn subpass_models(s: Seq<SubpassInfo>) -> Seq<SubpassModel> {
    s.map_values(|x: SubpassInfo| x.model())
}

/// What a pass runs as.
pub enum VkPassType {
    Graphics { render_pass: RenderPassInfo, attachments: Vec<ResourceName> },
    ComputeCopy { is_compute: bool },
}

/// The template of a pass.
pub struct VkPassTemplate {
    pub name: String,
    pub pass_type: VkPassType,
    pub renders_to_swapchain: bool,
    pub has_history_resources: bool,
    pub has_external_resources: bool,
    pub resources: Vec<ResourceName>,
    pub barriers: Vec<VkBarrierTemplate>,
}

/// `s` with `x` added unless it is there.
pub open spec fn set_insert(s: Seq<u32>, x: u32) -> Seq<u32> {
    if s.contains(x) { s } else { s.push(x) }
}

fn set_insert_exec(v: &mut Vec<u32>, x: u32)
    ensures
        final(v)@ == set_insert(old(v)@, x),
{
    let mut k: usize = 0;
    while k < v.len()
        invariant
            k <= v@.len(),
            forall|i: int| 0 <= i < k ==> v@[i] != x,
        decreases v@.len() - k,
    {
        if v[k] == x {
            assert(v@.contains(x));
            return;
        }
        k += 1;
    }
    v.push(x);
}

/// The store operation of an attachment: the contents are dropped after the
/// last pass that uses them.
pub open spec fn store_op_for(m: MetadataModel, p: u32) -> StoreOp {
    if m.pass_range.last_used_in_pass_index == p { StoreOp::DontCare } else { StoreOp::Store }
}

pub open spec fn clear_or_dont_care(clear: bool) -> LoadOp {
    if clear { LoadOp::Clear } else { LoadOp::DontCare }
}

/// The render pass stage of an input attachment's pipeline stage.
pub open spec fn stage_to_rp(stage: PipelineStage) -> Option<u32> {
    match stage {
        PipelineStage::GraphicsShaders => Some(RENDER_PASS_STAGE_BOTH),
        PipelineStage::VertexShader => Some(RENDER_PASS_STAGE_VERTEX),
        PipelineStage::FragmentShader => Some(RENDER_PASS_STAGE_FRAGMENT),
        _ => None,
    }
}

/// The state of building a graphics pass.
pub struct RpState {
    pub md: Map<u32, MetadataModel>,
    pub barriers: Seq<VkBarrierTemplate>,
    pub attachments: Seq<AttachmentInfo>,
    pub subpasses: Seq<SubpassModel>,
    pub cur: SubpassModel,
    pub renders_to_swapchain: bool,
    pub has_history: bool,
    pub has_external: bool,
    pub resources: Seq<u32>,
    pub names: Seq<(u32, u32)>,
}

pub open spec fn empty_subpass() -> SubpassModel {
    SubpassModel { inputs: Seq::empty(), outputs: Seq::empty(), depth: None }
}

pub open spec fn rp_initial(md: Map<u32, MetadataModel>) -> RpState {
    RpState {
        md,
        barriers: Seq::empty(),
        attachments: Seq::empty(),
        subpasses: Seq::empty(),
        cur: empty_subpass(),
        renders_to_swapchain: false,
        has_history: false,
        has_external: false,
        resources: Seq::empty(),
        names: Seq::empty(),
    }
}

/// A color output of a subpass: its barrier, a new attachment and a color reference.
pub open spec fn rp_output_step(st: RpState, o: SubpassOutput, f: Format, c: SampleCount, p: u32) -> Result<RpState, RenderGraphError> {
    let (name, format, samples, clear, to_swapchain) = match o {
        SubpassOutput::Backbuffer { clear } => (BACK_BUFFER_ATTACHMENT_NAME, f, c, clear, true),
        SubpassOutput::RenderTarget { name, format, samples, clear, .. } => (name, format, samples, clear, false),
    };
    match table_barrier(st.md, name, false, p, true) {
        Err(e) => Err(e),
        Ok((md2, b)) => {
            let idx = st.attachments.len() as u32;
            Ok(RpState {
                md: md2,
                barriers: st.barriers.push(b),
                attachments: st.attachments.push(AttachmentInfo {
                    format,
                    samples,
                    load_op: clear_or_dont_care(clear),
                    store_op: store_op_for(md2[name], p),
                    stencil_load_op: LoadOp::DontCare,
                    stencil_store_op: StoreOp::DontCare,
                }),
                cur: SubpassModel {
                    outputs: st.cur.outputs.push(OutputAttachmentRef { index: idx, resolve_attachment_index: None }),
                    ..st.cur
                },
                renders_to_swapchain: st.renders_to_swapchain || to_swapchain,
                names: seq_upsert(st.names, name, idx),
                ..st
            })
        },
    }
}

/// An input of a subpass: its barrier, and an input attachment reference when
/// the input is read locally from an attachment of this render pass.
pub open spec fn rp_input_step(st: RpState, input: PassInput, p: u32) -> Result<RpState, RenderGraphError> {
    let name = input.name;
    if !st.md.dom().contains(name) {
        Err(RenderGraphError::MissingResource { name })
    } else {
        let t = st.md[name].template;
        let texture = t is Texture || t is ExternalTexture;
        let external = t is ExternalTexture || t is ExternalBuffer;
        match table_barrier(st.md, name, input.is_history, p, texture) {
            Err(e) => Err(e),
            Ok((md2, b)) => {
                let st1 = RpState {
                    md: md2,
                    barriers: st.barriers.push(b),
                    has_external: st.has_external || external,
                    resources: set_insert(st.resources, name),
                    ..st
                };
                let idx = lookup(st.names, name);
                if input.usage == InputUsage::Local && !input.is_history && idx is Some {
                    match stage_to_rp(input.stage) {
                        None => Err(RenderGraphError::IllegalInputStage { name }),
                        Some(stage) => Ok(RpState {
                            cur: SubpassModel {
                                inputs: st1.cur.inputs.push(AttachmentRef { index: idx.unwrap(), pipeline_stage: stage }),
                                ..st1.cur
                            },
                            ..st1
                        }),
                    }
                } else if input.is_history {
                    Ok(RpState { has_history: true, ..st1 })
                } else {
                    Ok(st1)
                }
            },
        }
    }
}

/// The depth stencil attachment of a subpass.
pub open spec fn rp_depth_step(st: RpState, ds: DepthStencil, p: u32) -> Result<RpState, RenderGraphError> {
    match ds {
        DepthStencil::Output { name, format, samples, clear, .. } => match table_barrier(st.md, name, false, p, true) {
            Err(e) => Err(e),
            Ok((md2, b)) => {
                let idx = st.attachments.len() as u32;
                Ok(RpState {
                    md: md2,
                    barriers: st.barriers.push(b),
                    attachments: st.attachments.push(AttachmentInfo {
                        format,
                        samples,
                        load_op: clear_or_dont_care(clear),
                        store_op: store_op_for(md2[name], p),
                        stencil_load_op: LoadOp::DontCare,
                        stencil_store_op: StoreOp::DontCare,
                    }),
                    cur: SubpassModel {
                        depth: Some(DepthStencilAttachmentRef { index: idx, read_only: false }),
                        ..st.cur
                    },
                    names: seq_upsert(st.names, name, idx),
                    ..st
                })
            },
        },
        DepthStencil::Input { name, is_history } => match table_barrier(st.md, name, is_history, p, true) {
            Err(e) => Err(e),
            Ok((md2, b)) => match lookup(st.names, name) {
                Some(i) => Ok(RpState {
                    md: md2,
                    barriers: st.barriers.push(b),
                    cur: SubpassModel { depth: Some(DepthStencilAttachmentRef { index: i, read_only: true }), ..st.cur },
                    ..st
                }),
                None => match md2[name].template {
                    VkResourceTemplate::Texture { format, samples, .. } => {
                        let idx = st.attachments.len() as u32;
                        Ok(RpState {
                            md: md2,
                            barriers: st.barriers.push(b),
                            attachments: st.attachments.push(AttachmentInfo {
                                format,
                                samples,
                                load_op: if md2[name].pass_range.first_used_in_pass_index == p { LoadOp::Clear } else { LoadOp::Load },
                                store_op: store_op_for(md2[name], p),
                                stencil_load_op: LoadOp::DontCare,
                                stencil_store_op: StoreOp::DontCare,
                            }),
                            cur: SubpassModel { depth: Some(DepthStencilAttachmentRef { index: idx, read_only: true }), ..st.cur },
                            names: seq_upsert(st.names, name, idx),
                            ..st
                        })
                    },
                    _ => Err(RenderGraphError::UnsupportedDepthStencilInput { name }),
                },
            },
        },
        DepthStencil::NoAttachment => Ok(st),
    }
}

/// The resource a color output writes.
pub open spec fn output_name(o: SubpassOutput) -> ResourceName {
    match o {
        SubpassOutput::Backbuffer { .. } => BACK_BUFFER_ATTACHMENT_NAME,
        SubpassOutput::RenderTarget { name, .. } => name,
    }
}

/// The resource a depth stencil attachment uses, if any.
pub open spec fn depth_name(ds: DepthStencil) -> Option<ResourceName> {
    match ds {
        DepthStencil::Output { name, .. } => Some(name),
        DepthStencil::Input { name, .. } => Some(name),
        DepthStencil::NoAttachment => None,
    }
}

/// Law: every attachment that pass `p` adds keeps its contents exactly while a
/// later pass still uses the resource. Its store operation is `DontCare` when
/// `p` is the resource's last use, and `Store` otherwise; this holds for color
/// outputs and for depth stencil attachments, whatever was built before.
pub proof fn law_attachment_stored_while_used_later(st: RpState, o: SubpassOutput, ds: DepthStencil, f: Format, c: SampleCount, p: u32)
    ensures
        rp_output_step(st, o, f, c, p) is Ok ==> ({
            let name = output_name(o);
            let added = rp_output_step(st, o, f, c, p).unwrap().attachments;
            &&& st.md.dom().contains(name)
            &&& added.len() == st.attachments.len() + 1
            &&& (added.last().store_op == StoreOp::DontCare) == (st.md[name].pass_range.last_used_in_pass_index == p)
            &&& (added.last().store_op == StoreOp::Store) == (st.md[name].pass_range.last_used_in_pass_index != p)
        }),
        rp_depth_step(st, ds, p) is Ok && rp_depth_step(st, ds, p).unwrap().attachments.len() != st.attachments.len() ==> ({
            let name = depth_name(ds).unwrap();
            let added = rp_depth_step(st, ds, p).unwrap().attachments;
            &&& depth_name(ds) is Some
            &&& st.md.dom().contains(name)
            &&& added.len() == st.attachments.len() + 1
            &&& (added.last().store_op == StoreOp::DontCare) == (st.md[name].pass_range.last_used_in_pass_index == p)
            &&& (added.last().store_op == StoreOp::Store) == (st.md[name].pass_range.last_used_in_pass_index != p)
        }),
{
}

/// Law: the attachment a color output adds has the output's format and sample
/// count (the swapchain's for the back buffer), is cleared when the output asks
/// for it and otherwise not loaded, leaves stencil alone, and is the one the
/// subpass writes through its new color reference.
pub proof fn law_color_attachment_describes_output(st: RpState, o: SubpassOutput, f: Format, c: SampleCount, p: u32)
    ensures
        rp_output_step(st, o, f, c, p) is Ok ==> ({
            let st2 = rp_output_step(st, o, f, c, p).unwrap();
            let a = st2.attachments.last();
            let (format, samples, clear) = match o {
                SubpassOutput::Backbuffer { clear } => (f, c, clear),
                SubpassOutput::RenderTarget { format, samples, clear, .. } => (format, samples, clear),
            };
            &&& st2.attachments.len() == st.attachments.len() + 1
            &&& st2.attachments.take(st.attachments.len() as int) == st.attachments
            &&& a.format == format && a.samples == samples
            &&& (a.load_op == LoadOp::Clear) == clear
            &&& (a.load_op == LoadOp::DontCare) == !clear
            &&& a.stencil_load_op == LoadOp::DontCare && a.stencil_store_op == StoreOp::DontCare
            &&& st2.cur.outputs.len() == st.cur.outputs.len() + 1
            &&& st2.cur.outputs.last().index == st.attachments.len() as u32
            &&& st2.renders_to_swapchain == (st.renders_to_swapchain || o is Backbuffer)
        }),
{
    if rp_output_step(st, o, f, c, p) is Ok {
        let st2 = rp_output_step(st, o, f, c, p).unwrap();
        assert(st2.attachments.take(st.attachments.len() as int) =~= st.attachments);
    }
}

/// Law: a depth stencil output adds an attachment that is cleared when asked
/// and otherwise not loaded, referenced writable; a depth stencil input that
/// adds an attachment loads it unless this pass is the resource's first use
/// (then it is cleared), and references it read-only.
pub proof fn law_depth_attachment_load(st: RpState, ds: DepthStencil, p: u32)
    ensures
        rp_depth_step(st, ds, p) is Ok ==> ({
            let st2 = rp_depth_step(st, ds, p).unwrap();
            let a = st2.attachments.last();
            match ds {
                DepthStencil::Output { format, samples, clear, .. } => {
                    &&& st2.attachments.len() == st.attachments.len() + 1
                    &&& a.format == format && a.samples == samples
                    &&& (a.load_op == LoadOp::Clear) == clear
                    &&& (a.load_op == LoadOp::DontCare) == !clear
                    &&& st2.cur.depth == Some(DepthStencilAttachmentRef { index: st.attachments.len() as u32, read_only: false })
                },
                DepthStencil::Input { name, .. } => {
                    &&& st2.cur.depth matches Some(r) && r.read_only
                    &&& st2.attachments.len() != st.attachments.len() ==> {
                        &&& st2.attachments.len() == st.attachments.len() + 1
                        &&& (a.load_op == LoadOp::Clear) == (st.md[name].pass_range.first_used_in_pass_index == p)
                        &&& (a.load_op == LoadOp::Load) == (st.md[name].pass_range.first_used_in_pass_index != p)
                    }
                },
                DepthStencil::NoAttachment => st2 == st,
            }
        }),
{
}

pub open spec fn output_stepper(f: Format, c: SampleCount, p: u32) -> spec_fn(RpState, SubpassOutput) -> Result<RpState, RenderGraphError> {
    |st: RpState, o: SubpassOutput| rp_output_step(st, o, f, c, p)
}

pub open spec fn input_stepper(p: u32) -> spec_fn(RpState, PassInput) -> Result<RpState, RenderGraphError> {
    |st: RpState, i: PassInput| rp_input_step(st, i, p)
}

/// A subpass: its color outputs, its inputs, its depth stencil attachment.
pub open spec fn rp_subpass_step(st: RpState, sp: GraphicsSubpassInfo, f: Format, c: SampleCount, p: u32) -> Result<RpState, RenderGraphError> {
    match fold_res(st, sp.outputs@, output_stepper(f, c, p)) {
        Err(e) => Err(e),
        Ok(s1) => match fold_res(s1, sp.inputs@, input_stepper(p)) {
            Err(e) => Err(e),
            Ok(s2) => match rp_depth_step(s2, sp.depth_stencil, p) {
                Err(e) => Err(e),
                Ok(s3) => Ok(RpState { subpasses: s3.subpasses.push(s3.cur), cur: empty_subpass(), ..s3 }),
            },
        },
    }
}

pub open spec fn subpass_stepper(f: Format, c: SampleCount, p: u32) -> spec_fn(RpState, GraphicsSubpassInfo) -> Result<RpState, RenderGraphError> {
    |st: RpState, sp: GraphicsSubpassInfo| rp_subpass_step(st, sp, f, c, p)
}

/// The graphics pass `p` built from its subpasses, starting from the table `md`.
pub open spec fn graphics_pass_spec(md: Map<u32, MetadataModel>, sps: Seq<GraphicsSubpassInfo>, f: Format, c: SampleCount, p: u32) -> Result<RpState, RenderGraphError> {
    fold_res(rp_initial(md), sps, subpass_stepper(f, c, p))
}

/// The first key whose value is `v`.
pub open spec fn first_key_with_value(names: Seq<(u32, u32)>, v: u32) -> Option<u32>
    decreases names.len(),
{
    if names.len() == 0 {
        None
    } else if names[0].1 == v {
        Some(names[0].0)
    } else {
        first_key_with_value(names.drop_first(), v)
    }
}

/// The names of the attachments `0..n`, in the order of their indices.
pub open spec fn names_by_index(names: Seq<(u32, u32)>, n: nat) -> Seq<u32>
    decreases n,
{
    if n == 0 {
        Seq::empty()
    } else {
        let prev = names_by_index(names, (n - 1) as nat);
        match first_key_with_value(names, (n - 1) as u32) {
            Some(k) => prev.push(k),
            None => prev,
        }
    }
}

/// The template matches the finished state of a graphics pass.
pub open spec fn graphics_template_matches(t: VkPassTemplate, st: RpState) -> bool {
    &&& t.renders_to_swapchain == st.renders_to_swapchain
    &&& t.has_history_resources == st.has_history
    &&& t.has_external_resources == st.has_external
    &&& t.resources@ == st.resources
    &&& t.barriers@ == st.barriers
    &&& t.pass_type matches VkPassType::Graphics { render_pass, attachments }
        && render_pass.attachments@ == st.attachments
        && subpass_models(render_pass.subpasses@) == st.subpasses
        && attachments@ == names_by_index(st.names, st.attachments.len())
}

struct RpBuilder {
    barriers: Vec<VkBarrierTemplate>,
    attachments: Vec<AttachmentInfo>,
    subpasses: Vec<SubpassInfo>,
    cur_inputs: Vec<AttachmentRef>,
    cur_outputs: Vec<OutputAttachmentRef>,
    cur_depth: Option<DepthStencilAttachmentRef>,
    renders_to_swapchain: bool,
    has_history: bool,
    has_external: bool,
    resources: Vec<u32>,
    names: AssocTable<u32>,
}

spec fn rp_state(b: RpBuilder, t: ResourceTable) -> RpState {
    RpState {
        md: table_model(t),
        barriers: b.barriers@,
        attachments: b.attachments@,
        subpasses: subpass_models(b.subpasses@),
        cur: SubpassModel { inputs: b.cur_inputs@, outputs: b.cur_outputs@, depth: b.cur_depth },
        renders_to_swapchain: b.renders_to_swapchain,
        has_history: b.has_history,
        has_external: b.has_external,
        resources: b.resources@,
        names: b.names.entries(),
    }
}

spec fn rp_wf(b: RpBuilder, t: ResourceTable) -> bool {
    table_wf(t) && b.names.wf()
}

fn stage_to_rp_exec(stage: PipelineStage) -> (r: Option<u32>)
    ensures
        r == stage_to_rp(stage),
{
    match stage {
        PipelineStage::GraphicsShaders => Some(RENDER_PASS_STAGE_BOTH),
        PipelineStage::VertexShader => Some(RENDER_PASS_STAGE_VERTEX),
        PipelineStage::FragmentShader => Some(RENDER_PASS_STAGE_FRAGMENT),
        _ => None,
    }
}

fn store_op_exec(table: &ResourceTable, name: ResourceName, p: u32) -> (s: StoreOp)
    requires
        table_wf(*table),
        table_model(*table).dom().contains(name),
    ensures
        s == store_op_for(table_model(*table)[name], p),
{
    let m = table.get(name).unwrap();
    if m.pass_range.last_used_in_pass_index == p { StoreOp::DontCare } else { StoreOp::Store }
}

fn rp_output_exec(b: &mut RpBuilder, table: &mut ResourceTable, o: SubpassOutput, f: Format, c: SampleCount, p: u32) -> (r: Result<(), RenderGraphError>)
    requires
        rp_wf(*old(b), *old(table)),
    ensures
        match rp_output_step(rp_state(*old(b), *old(table)), o, f, c, p) {
            Ok(st) => r is Ok && rp_wf(*final(b), *final(table)) && rp_state(*final(b), *final(table)) == st,
            Err(e) => r == Err::<(), RenderGraphError>(e),
        },
{
    let (name, format, samples, clear, to_swapchain) = match o {
        SubpassOutput::Backbuffer { clear } => (BACK_BUFFER_ATTACHMENT_NAME, f, c, clear, true),
        SubpassOutput::RenderTarget { name, format, samples, clear, .. } => (name, format, samples, clear, false),
    };
    let barrier = build_barrier(table, name, false, p, true)?;
    let idx = b.attachments.len() as u32;
    let store_op = store_op_exec(table, name, p);
    b.barriers.push(barrier);
    b.names.insert(name, idx);
    b.cur_outputs.push(OutputAttachmentRef { index: idx, resolve_attachment_index: None });
    b.attachments.push(AttachmentInfo {
        format,
        samples,
        load_op: if clear { LoadOp::Clear } else { LoadOp::DontCare },
        store_op,
        stencil_load_op: LoadOp::DontCare,
        stencil_store_op: StoreOp::DontCare,
    });
    b.renders_to_swapchain = b.renders_to_swapchain || to_swapchain;
    Ok(())
}

fn rp_input_exec(b: &mut RpBuilder, table: &mut ResourceTable, input: PassInput, p: u32) -> (r: Result<(), RenderGraphError>)
    requires
        rp_wf(*old(b), *old(table)),
    ensures
        match rp_input_step(rp_state(*old(b), *old(table)), input, p) {
            Ok(st) => r is Ok && rp_wf(*final(b), *final(table)) && rp_state(*final(b), *final(table)) == st,
            Err(e) => r == Err::<(), RenderGraphError>(e),
        },
{
    let name = input.name;
    let (texture, external) = match table.get(name) {
        None => return Err(RenderGraphError::MissingResource { name }),
        Some(m) => match m.template {
            VkResourceTemplate::Texture { .. } => (true, false),
            VkResourceTemplate::Buffer { .. } => (false, false),
            VkResourceTemplate::ExternalTexture { .. } => (true, true),
            VkResourceTemplate::ExternalBuffer => (false, true),
        },
    };
    let barrier = build_barrier(table, name, input.is_history, p, texture)?;
    b.barriers.push(barrier);
    b.has_external = b.has_external || external;
    set_insert_exec(&mut b.resources, name);
    let idx = match b.names.get(name) {
        Some(i) => Some(*i),
        None => None,
    };
    proof {
        crate::table::lemma_seq_to_map(b.names.entries());
    }
    if input.usage == InputUsage::Local && !input.is_history && idx.is_some() {
        match stage_to_rp_exec(input.stage) {
            None => {
                return Err(RenderGraphError::IllegalInputStage { name });
            },
            Some(stage) => {
                b.cur_inputs.push(AttachmentRef { index: idx.unwrap(), pipeline_stage: stage });
            },
        }
    } else if input.is_history {
        b.has_history = true;
    }
    Ok(())
}

fn rp_depth_exec(b: &mut RpBuilder, table: &mut ResourceTable, ds: DepthStencil, p: u32) -> (r: Result<(), RenderGraphError>)
    requires
        rp_wf(*old(b), *old(table)),
    ensures
        match rp_depth_step(rp_state(*old(b), *old(table)), ds, p) {
            Ok(st) => r is Ok && rp_wf(*final(b), *final(table)) && rp_state(*final(b), *final(table)) == st,
            Err(e) => r == Err::<(), RenderGraphError>(e),
        },
{
    match ds {
        DepthStencil::Output { name, format, samples, clear, .. } => {
            let barrier = build_barrier(table, name, false, p, true)?;
            let idx = b.attachments.len() as u32;
            let store_op = store_op_exec(table, name, p);
            b.barriers.push(barrier);
            b.names.insert(name, idx);
            b.cur_depth = Some(DepthStencilAttachmentRef { index: idx, read_only: false });
            b.attachments.push(AttachmentInfo {
                format,
                samples,
                load_op: if clear { LoadOp::Clear } else { LoadOp::DontCare },
                store_op,
                stencil_load_op: LoadOp::DontCare,
                stencil_store_op: StoreOp::DontCare,
            });
            Ok(())
        },
        DepthStencil::Input { name, is_history } => {
            let barrier = build_barrier(table, name, is_history, p, true)?;
            proof {
                crate::table::lemma_seq_to_map(b.names.entries());
            }
            match b.names.get(name) {
                Some(i) => {
                    let i = *i;
                    b.barriers.push(barrier);
                    b.cur_depth = Some(DepthStencilAttachmentRef { index: i, read_only: true });
                    Ok(())
                },
                None => {
                    proof {
                        assert(table_model(*table).dom().contains(name));
                        assert(table@.dom().contains(name));
                    }
                    let m = table.get(name).unwrap();
                    match m.template {
                        VkResourceTemplate::Texture { format, samples, .. } => {
                            let load_op = if m.pass_range.first_used_in_pass_index == p { LoadOp::Clear } else { LoadOp::Load };
                            let store_op = if m.pass_range.last_used_in_pass_index == p { StoreOp::DontCare } else { StoreOp::Store };
                            let idx = b.attachments.len() as u32;
                            b.barriers.push(barrier);
                            b.attachments.push(AttachmentInfo {
                                format,
                                samples,
                                load_op,
                                store_op,
                                stencil_load_op: LoadOp::DontCare,
                                stencil_store_op: StoreOp::DontCare,
                            });
                            b.names.insert(name, idx);
                            b.cur_depth = Some(DepthStencilAttachmentRef { index: idx, read_only: true });
                            Ok(())
                        },
                        _ => Err(RenderGraphError::UnsupportedDepthStencilInput { name }),
                    }
                },
            }
        },
        DepthStencil::NoAttachment => Ok(()),
    }
}

fn rp_subpass_exec(b: &mut RpBuilder, table: &mut ResourceTable, sp: &GraphicsSubpassInfo, f: Format, c: SampleCount, p: u32) -> (r: Result<(), RenderGraphError>)
    requires
        rp_wf(*old(b), *old(table)),
    ensures
        match rp_subpass_step(rp_state(*old(b), *old(table)), *sp, f, c, p) {
            Ok(st) => r is Ok && rp_wf(*final(b), *final(table)) && rp_state(*final(b), *final(table)) == st,
            Err(e) => r == Err::<(), RenderGraphError>(e),
        },
{
    let ghost st0 = rp_state(*b, *table);
    let mut j: usize = 0;
    while j < sp.outputs.len()
        invariant
            j <= sp.outputs@.len(),
            rp_wf(*b, *table),
            st0 == rp_state(*old(b), *old(table)),
            fold_res(st0, sp.outputs@.take(j as int), output_stepper(f, c, p)) == Ok::<RpState, RenderGraphError>(rp_state(*b, *table)),
        decreases sp.outputs@.len() - j,
    {
        proof {
            lemma_fold_take(st0, sp.outputs@, j as int, output_stepper(f, c, p));
        }
        let res = rp_output_exec(b, table, sp.outputs[j], f, c, p);
        if let Err(e) = res {
            proof {
                lemma_fold_err(st0, sp.outputs@, j as int + 1, output_stepper(f, c, p));
            }
            return Err(e);
        }
        j += 1;
    }
    proof {
        lemma_fold_all(st0, sp.outputs@, output_stepper(f, c, p));
    }
    let ghost s1 = rp_state(*b, *table);
    let mut k: usize = 0;
    while k < sp.inputs.len()
        invariant
            k <= sp.inputs@.len(),
            rp_wf(*b, *table),
            st0 == rp_state(*old(b), *old(table)),
            fold_res(st0, sp.outputs@, output_stepper(f, c, p)) == Ok::<RpState, RenderGraphError>(s1),
            fold_res(s1, sp.inputs@.take(k as int), input_stepper(p)) == Ok::<RpState, RenderGraphError>(rp_state(*b, *table)),
        decreases sp.inputs@.len() - k,
    {
        proof {
            lemma_fold_take(s1, sp.inputs@, k as int, input_stepper(p));
        }
        let res = rp_input_exec(b, table, sp.inputs[k], p);
        if let Err(e) = res {
            proof {
                lemma_fold_err(s1, sp.inputs@, k as int + 1, input_stepper(p));
            }
            return Err(e);
        }
        k += 1;
    }
    proof {
        lemma_fold_all(s1, sp.inputs@, input_stepper(p));
    }
    rp_depth_exec(b, table, sp.depth_stencil, p)?;
    let mut inputs: Vec<AttachmentRef> = Vec::new();
    let mut outputs: Vec<OutputAttachmentRef> = Vec::new();
    std::mem::swap(&mut inputs, &mut b.cur_inputs);
    std::mem::swap(&mut outputs, &mut b.cur_outputs);
    let depth = b.cur_depth;
    b.cur_depth = None;
    let ghost old_subpasses = b.subpasses@;
    b.subpasses.push(SubpassInfo { input_attachments: inputs, output_color_attachments: outputs, depth_stencil_attachment: depth });
    proof {
        assert(subpass_models(b.subpasses@) =~= subpass_models(old_subpasses).push(SubpassModel { inputs: inputs@, outputs: outputs@, depth }));
        assert(b.cur_inputs@ =~= Seq::<AttachmentRef>::empty());
        assert(b.cur_outputs@ =~= Seq::<OutputAttachmentRef>::empty());
    }
    Ok(())
}

fn first_key_with_value_exec(names: &AssocTable<u32>, v: u32) -> (r: Option<u32>)
    ensures
        r == first_key_with_value(names.entries(), v),
{
    let ghost s = names.entries();
    proof {
        assert(s.subrange(0, s.len() as int) =~= s);
    }
    let mut j: usize = 0;
    while j < names.len()
        invariant
            j <= s.len(),
            s == names.entries(),
            first_key_with_value(s, v) == first_key_with_value(s.subrange(j as int, s.len() as int), v),
        decreases s.len() - j,
    {
        let e = names.entry(j);
        proof {
            let rest = s.subrange(j as int, s.len() as int);
            assert(rest[0] == s[j as int]);
            assert(rest.drop_first() =~= s.subrange(j as int + 1, s.len() as int));
        }
        if e.1 == v {
            return Some(e.0);
        }
        j += 1;
    }
    proof {
        assert(s.subrange(j as int, s.len() as int).len() == 0);
    }
    None
}

fn names_by_index_exec(names: &AssocTable<u32>, n: usize) -> (r: Vec<u32>)
    ensures
        r@ == names_by_index(names.entries(), n as nat),
{
    let mut out: Vec<u32> = Vec::new();
    let mut idx: usize = 0;
    while idx < n
        invariant
            idx <= n,
            out@ == names_by_index(names.entries(), idx as nat),
        decreases n - idx,
    {
        match first_key_with_value_exec(names, idx as u32) {
            Some(k) => out.push(k),
            None => {},
        }
        idx += 1;
    }
    out
}

/// Builds the template of graphics pass `p` named `name`: the barriers of its
/// outputs and inputs, its render pass and the names of its attachments.
pub fn build_render_pass(
    subpasses: &Vec<GraphicsSubpassInfo>,
    name: String,
    pass_index: u32,
    attachment_metadata: &mut ResourceTable,
    swapchain_format: Format,
    swapchain_samples: SampleCount,
) -> (r: Result<VkPassTemplate, RenderGraphError>)
    requires
        table_wf(*old(attachment_metadata)),
    ensures
        match graphics_pass_spec(table_model(*old(attachment_metadata)), subpasses@, swapchain_format, swapchain_samples, pass_index) {
            Ok(st) => r matches Ok(t) && t.name == name && graphics_template_matches(t, st)
                && table_wf(*final(attachment_metadata)) && table_model(*final(attachment_metadata)) == st.md,
            Err(e) => r is Err && r->Err_0 == e,
        },
{
    let mut b = RpBuilder {
        barriers: Vec::new(),
        attachments: Vec::new(),
        subpasses: Vec::new(),
        cur_inputs: Vec::new(),
        cur_outputs: Vec::new(),
        cur_depth: None,
        renders_to_swapchain: false,
        has_history: false,
        has_external: false,
        resources: Vec::new(),
        names: AssocTable::new(),
    };
    let ghost st0 = rp_state(b, *attachment_metadata);
    proof {
        assert(subpass_models(b.subpasses@) =~= Seq::<SubpassModel>::empty());
        assert(st0 == rp_initial(table_model(*attachment_metadata)));
    }
    let mut s: usize = 0;
    while s < subpasses.len()
        invariant
            s <= subpasses@.len(),
            rp_wf(b, *attachment_metadata),
            st0 == rp_initial(table_model(*old(attachment_metadata))),
            fold_res(st0, subpasses@.take(s as int), subpass_stepper(swapchain_format, swapchain_samples, pass_index)) == Ok::<RpState, RenderGraphError>(rp_state(b, *attachment_metadata)),
        decreases subpasses@.len() - s,
    {
        proof {
            lemma_fold_take(st0, subpasses@, s as int, subpass_stepper(swapchain_format, swapchain_samples, pass_index));
        }
        let res = rp_subpass_exec(&mut b, attachment_metadata, &subpasses[s], swapchain_format, swapchain_samples, pass_index);
        if let Err(e) = res {
            proof {
                lemma_fold_err(st0, subpasses@, s as int + 1, subpass_stepper(swapchain_format, swapchain_samples, pass_index));
            }
            return Err(e);
        }
        s += 1;
    }
    proof {
        lemma_fold_all(st0, subpasses@, subpass_stepper(swapchain_format, swapchain_samples, pass_index));
    }
    let attachments = names_by_index_exec(&b.names, b.attachments.len());
    let RpBuilder { barriers, attachments: rp_attachments, subpasses: rp_subpasses, renders_to_swapchain, has_history, has_external, resources, .. } = b;
    Ok(VkPassTemplate {
        name,
        pass_type: VkPassType::Graphics {
            render_pass: RenderPassInfo { attachments: rp_attachments, subpasses: rp_subpasses },
            attachments,
        },
        renders_to_swapchain,
        has_history_resources: has_history,
        has_external_resources: has_external,
        resources,
        barriers,
    })
}

} // verus!
