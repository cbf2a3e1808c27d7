//! The order in which the passes of a render graph run.
//!
//! Passes are picked one at a time: among the remaining passes whose inputs
//! are available, the one whose youngest dependency is oldest wins (the first
//! one on ties); a pass that writes the back buffer wins while nothing else has
//! been picked yet. Each picked pass is recorded into the resource table.
use vstd::prelude::*;
use crate::table::{AssocTable, seq_upsert};
use crate::graph_info::{
    ResourceName, Format, SampleCount, PassInput, PassInfo, PassType, SubpassOutput, Output,
    ExternalOutput, ExternalProducerType, pass_group_count, pass_group_inputs,
    pass_group_writes_backbuffer,
};
use crate::graph_resources::{
    MetadataModel, ResourceMetadata, ResourceTable, ResourceAccess, ResourcePassRange,
    VkResourceTemplate, RenderGraphError, table_wf, table_model, max_u32, pass_events,
    apply_events, record_pass, empty_access, make_empty_access, access_of,
    lemma_table_insert, TEXTURE_USAGE_RENDER_TARGET, TEXTURE_USAGE_DEPTH_WRITE,
    TEXTURE_USAGE_COMPUTE_SHADER_STORAGE_WRITE, TEXTURE_USAGE_COPY_DST,
    BUFFER_USAGE_FRAGMENT_SHADER_STORAGE_WRITE, BUFFER_USAGE_VERTEX_SHADER_STORAGE_WRITE,
    BUFFER_USAGE_COMPUTE_SHADER_STORAGE_WRITE, BUFFER_USAGE_COPY_DST,
};

verus! {

/// Reading `input` updates the readiness and the youngest dependency of a pass.
pub open spec fn input_dependency(md: Map<u32, MetadataModel>, input: PassInput, ready: bool, youngest: u32) -> (bool, u32) {
    if md.dom().contains(input.name) {
        (ready, max_u32(md[input.name].pass_range.first_used_in_pass_index, youngest))
    } else if input.is_history {
        (ready, youngest)
    } else {
        (false, youngest)
    }
}

/// The readiness and youngest dependency after reading `inputs` in order.
pub open spec fn inputs_dependency(md: Map<u32, MetadataModel>, inputs: Seq<PassInput>, ready: bool, youngest: u32) -> (bool, u32)
    decreases inputs.len(),
{
    if inputs.len() == 0 {
        (ready, youngest)
    } else {
        let (r, y) = inputs_dependency(md, inputs.drop_last(), ready, youngest);
        input_dependency(md, inputs.last(), r, y)
    }
}

/// The best candidate after considering pass `idx` in its current state.
pub open spec fn better(best: Option<(u32, u32)>, idx: u32, ready: bool, youngest: u32, to_backbuffer: bool) -> Option<(u32, u32)> {
    if to_backbuffer && ready && best is None {
        Some((idx, 0))
    } else if ready && (best is None || youngest < best.unwrap().1) {
        Some((idx, youngest))
    } else {
        best
    }
}

/// The state (ready, youngest dependency, writes the back buffer, best candidate)
/// after the first `n` groups of pass `idx`.
pub open spec fn scan_groups(md: Map<u32, MetadataModel>, pass: PassInfo, idx: u32, n: nat, best: Option<(u32, u32)>) -> (bool, u32, bool, Option<(u32, u32)>)
    decreases n,
{
    if n == 0 {
        (true, 0, false, best)
    } else {
        let (r, y, b, bst) = scan_groups(md, pass, idx, (n - 1) as nat, best);
        let (r2, y2) = inputs_dependency(md, pass_group_inputs(pass, n - 1), r, y);
        let b2 = b || pass_group_writes_backbuffer(pass, n - 1);
        (r2, y2, b2, better(bst, idx, r2, y2, b2))
    }
}

/// The best candidate (index, score) among the first `n` passes.
pub open spec fn select_over(md: Map<u32, MetadataModel>, passes: Seq<PassInfo>, n: nat) -> Option<(u32, u32)>
    decreases n,
{
    if n == 0 {
        None
    } else {
        let prev = select_over(md, passes, (n - 1) as nat);
        scan_groups(md, passes[n - 1], (n - 1) as u32, pass_group_count(passes[n - 1]), prev).3
    }
}

/// The pass picked next among `passes`, as its index.
pub open spec fn next_pass_index(md: Map<u32, MetadataModel>, passes: Seq<PassInfo>) -> Option<int> {
    match select_over(md, passes, passes.len()) {
        Some((i, _)) => Some(i as int),
        None => None,
    }
}

fn inputs_dependency_exec(md: &ResourceTable, inputs: &Vec<PassInput>, ready: bool, youngest: u32) -> (r: (bool, u32))
    requires
        table_wf(*md),
    ensures
        r == inputs_dependency(table_model(*md), inputs@, ready, youngest),
{
    let mut r = ready;
    let mut y = youngest;
    let mut k: usize = 0;
    while k < inputs.len()
        invariant
            k <= inputs@.len(),
            table_wf(*md),
            (r, y) == inputs_dependency(table_model(*md), inputs@.take(k as int), ready, youngest),
        decreases inputs@.len() - k,
    {
        proof {
            assert(inputs@.take(k as int + 1).drop_last() =~= inputs@.take(k as int));
        }
        let input = inputs[k];
        match md.get(input.name) {
            Some(m) => {
                let first = m.pass_range.first_used_in_pass_index;
                if first > y {
                    y = first;
                }
            },
            None => {
                if !input.is_history {
                    r = false;
                }
            },
        }
        k += 1;
    }
    proof {
        assert(inputs@.take(inputs@.len() as int) =~= inputs@);
    }
    (r, y)
}

fn subpass_writes_backbuffer(outputs: &Vec<SubpassOutput>) -> (b: bool)
    ensures
        b == exists|i: int| 0 <= i < outputs@.len() && #[trigger] outputs@[i] is Backbuffer,
{
    let mut k: usize = 0;
    while k < outputs.len()
        invariant
            k <= outputs@.len(),
            forall|i: int| 0 <= i < k ==> !(#[trigger] outputs@[i] is Backbuffer),
        decreases outputs@.len() - k,
    {
        if let SubpassOutput::Backbuffer { .. } = outputs[k] {
            return true;
        }
        k += 1;
    }
    false
}

fn outputs_write_backbuffer(outputs: &Vec<Output>) -> (b: bool)
    ensures
        b == exists|i: int| 0 <= i < outputs@.len() && #[trigger] outputs@[i] is Backbuffer,
{
    let mut k: usize = 0;
    while k < outputs.len()
        invariant
            k <= outputs@.len(),
            forall|i: int| 0 <= i < k ==> !(#[trigger] outputs@[i] is Backbuffer),
        decreases outputs@.len() - k,
    {
        if let Output::Backbuffer { .. } = outputs[k] {
            return true;
        }
        k += 1;
    }
    false
}

fn better_exec(best: Option<(u32, u32)>, idx: u32, ready: bool, youngest: u32, to_backbuffer: bool) -> (r: Option<(u32, u32)>)
    ensures
        r == better(best, idx, ready, youngest, to_backbuffer),
{
    if to_backbuffer && ready && best.is_none() {
        Some((idx, 0))
    } else if ready && (best.is_none() || youngest < best.unwrap().1) {
        Some((idx, youngest))
    } else {
        best
    }
}

/// Considers pass `idx`: the best candidate after it.
fn scan_pass(md: &ResourceTable, pass: &PassInfo, idx: u32, best: Option<(u32, u32)>) -> (r: Option<(u32, u32)>)
    requires
        table_wf(*md),
    ensures
        r == scan_groups(table_model(*md), *pass, idx, pass_group_count(*pass), best).3,
{
    match &pass.pass_type {
        PassType::Graphics { subpasses } => {
            let mut ready = true;
            let mut youngest: u32 = 0;
            let mut to_backbuffer = false;
            let mut bst = best;
            let mut g: usize = 0;
            while g < subpasses.len()
                invariant
                    g <= subpasses@.len(),
                    table_wf(*md),
                    pass.pass_type == (PassType::Graphics { subpasses: *subpasses }),
                    (ready, youngest, to_backbuffer, bst) == scan_groups(table_model(*md), *pass, idx, g as nat, best),
                decreases subpasses@.len() - g,
            {
                let (r2, y2) = inputs_dependency_exec(md, &subpasses[g].inputs, ready, youngest);
                let wb = subpass_writes_backbuffer(&subpasses[g].outputs);
                let b2 = to_backbuffer || wb;
                bst = better_exec(bst, idx, r2, y2, b2);
                ready = r2;
                youngest = y2;
                to_backbuffer = b2;
                g += 1;
            }
            bst
        },
        PassType::Compute { inputs, outputs } => {
            let (r2, y2) = inputs_dependency_exec(md, inputs, true, 0);
            let wb = outputs_write_backbuffer(outputs);
            proof {
                assert(scan_groups(table_model(*md), *pass, idx, 0, best) == (true, 0u32, false, best));
            }
            better_exec(best, idx, r2, y2, wb)
        },
        PassType::Copy { inputs, outputs } => {
            let (r2, y2) = inputs_dependency_exec(md, inputs, true, 0);
            let wb = outputs_write_backbuffer(outputs);
            proof {
                assert(scan_groups(table_model(*md), *pass, idx, 0, best) == (true, 0u32, false, best));
            }
            better_exec(best, idx, r2, y2, wb)
        },
    }
}

/// A candidate index found by the scan is an index of a pass.
pub proof fn lemma_select_in_range(md: Map<u32, MetadataModel>, passes: Seq<PassInfo>, n: nat)
    requires
        n <= passes.len(),
        passes.len() <= u32::MAX,
    ensures
        select_over(md, passes, n) matches Some((i, _)) ==> i < n,
    decreases n,
{
    if n > 0 {
        lemma_select_in_range(md, passes, (n - 1) as nat);
        lemma_scan_keeps_range(md, passes[n - 1], (n - 1) as u32, pass_group_count(passes[n - 1]), select_over(md, passes, (n - 1) as nat), n);
    }
}

proof fn lemma_scan_keeps_range(md: Map<u32, MetadataModel>, pass: PassInfo, idx: u32, g: nat, best: Option<(u32, u32)>, bound: nat)
    requires
        idx < bound,
        best matches Some((i, _)) ==> i < bound,
    ensures
        scan_groups(md, pass, idx, g, best).3 matches Some((i, _)) ==> i < bound,
    decreases g,
{
    if g > 0 {
        lemma_scan_keeps_range(md, pass, idx, (g - 1) as nat, best, bound);
    }
}

/// Takes the pass that runs next out of `pass_infos`; some pass must be ready.
pub fn find_next_suitable_pass(pass_infos: &mut Vec<PassInfo>, metadata: &ResourceTable) -> (r: PassInfo)
    requires
        table_wf(*metadata),
        old(pass_infos)@.len() <= u32::MAX,
        next_pass_index(table_model(*metadata), old(pass_infos)@) is Some,
    ensures
        ({
            let i = next_pass_index(table_model(*metadata), old(pass_infos)@).unwrap();
            &&& 0 <= i < old(pass_infos)@.len()
            &&& r == old(pass_infos)@[i]
            &&& final(pass_infos)@ == old(pass_infos)@.remove(i)
        }),
{
    let mut best: Option<(u32, u32)> = None;
    let mut k: usize = 0;
    while k < pass_infos.len()
        invariant
            k <= pass_infos@.len(),
            pass_infos@.len() <= u32::MAX,
            table_wf(*metadata),
            best == select_over(table_model(*metadata), pass_infos@, k as nat),
        decreases pass_infos@.len() - k,
    {
        best = scan_pass(metadata, &pass_infos[k], k as u32, best);
        k += 1;
    }
    proof {
        lemma_select_in_range(table_model(*metadata), pass_infos@, pass_infos@.len());
    }
    let (i, _) = best.unwrap();
    pass_infos.remove(i as usize)
}

/// The access with which an outside resource arrives, if its producer is supported.
pub open spec fn external_access(e: ExternalOutput) -> Option<ResourceAccess> {
    match e {
        ExternalOutput::Buffer { producer_type, .. } => Some(access_of(true, match producer_type {
            ExternalProducerType::Graphics => BUFFER_USAGE_FRAGMENT_SHADER_STORAGE_WRITE | BUFFER_USAGE_VERTEX_SHADER_STORAGE_WRITE,
            ExternalProducerType::Compute => BUFFER_USAGE_COMPUTE_SHADER_STORAGE_WRITE,
            ExternalProducerType::Copy => BUFFER_USAGE_COPY_DST,
            ExternalProducerType::Host => 0,
        })),
        ExternalOutput::RenderTarget { producer_type, .. } => match producer_type {
            ExternalProducerType::Graphics => Some(access_of(false, TEXTURE_USAGE_RENDER_TARGET)),
            ExternalProducerType::Compute => Some(access_of(false, TEXTURE_USAGE_COMPUTE_SHADER_STORAGE_WRITE)),
            ExternalProducerType::Copy => Some(access_of(false, TEXTURE_USAGE_COPY_DST)),
            ExternalProducerType::Host => None,
        },
        ExternalOutput::DepthStencil { producer_type, .. } => match producer_type {
            ExternalProducerType::Graphics => Some(access_of(false, TEXTURE_USAGE_DEPTH_WRITE)),
            ExternalProducerType::Compute => Some(access_of(false, TEXTURE_USAGE_COMPUTE_SHADER_STORAGE_WRITE)),
            ExternalProducerType::Copy => Some(access_of(false, TEXTURE_USAGE_COPY_DST)),
            ExternalProducerType::Host => None,
        },
    }
}

/// The template of an outside resource.
pub open spec fn external_template(e: ExternalOutput) -> VkResourceTemplate {
    match e {
        ExternalOutput::Buffer { .. } => VkResourceTemplate::ExternalBuffer,
        ExternalOutput::RenderTarget { .. } => VkResourceTemplate::ExternalTexture { is_depth_stencil: false },
        ExternalOutput::DepthStencil { .. } => VkResourceTemplate::ExternalTexture { is_depth_stencil: true },
    }
}

/// The metadata of an outside resource: produced before the first pass.
pub open spec fn external_metadata(e: ExternalOutput, access: ResourceAccess) -> MetadataModel {
    MetadataModel {
        template: external_template(e),
        pass_range: ResourcePassRange { first_used_in_pass_index: 0, last_used_in_pass_index: 0 },
        history: None,
        pass_accesses: seq_upsert(Seq::empty(), 0, access),
        current_access: empty_access(e is Buffer),
    }
}

/// Every outside resource has a producer whose access is known (the host
/// writes outside buffers only).
pub open spec fn externals_supported(exts: Seq<ExternalOutput>) -> bool {
    forall|i: int| 0 <= i < exts.len() ==> (#[trigger] external_access(exts[i])) is Some
}

/// The table after registering the outside resources in order.
pub open spec fn apply_externals(md: Map<u32, MetadataModel>, exts: Seq<ExternalOutput>) -> Map<u32, MetadataModel>
    decreases exts.len(),
{
    if exts.len() == 0 {
        md
    } else {
        let e = exts.last();
        apply_externals(md, exts.drop_last()).insert(e.spec_name(), external_metadata(e, external_access(e).unwrap()))
    }
}

/// The passes in the order they run and the final resource table, from the
/// table `md` in which `p` passes are already placed.
pub open spec fn reorder_from(md: Map<u32, MetadataModel>, remaining: Seq<PassInfo>, p: nat, f: Format, c: SampleCount) -> Result<(Seq<PassInfo>, Map<u32, MetadataModel>), RenderGraphError>
    decreases remaining.len(),
{
    if remaining.len() == 0 {
        Ok((Seq::empty(), md))
    } else {
        match next_pass_index(md, remaining) {
            None => Err(RenderGraphError::InvalidRenderGraph),
            Some(i) => if 0 <= i < remaining.len() {
                match apply_events(md, pass_events(remaining[i], f, c), p as u32) {
                    Err(e) => Err(e),
                    Ok(md2) => match reorder_from(md2, remaining.remove(i), p + 1, f, c) {
                        Ok((rest, mdf)) => Ok((seq![remaining[i]] + rest, mdf)),
                        Err(e) => Err(e),
                    },
                }
            } else {
                Err(RenderGraphError::InvalidRenderGraph)
            },
        }
    }
}

/// The order of the passes of a graph and the resource table it leaves.
pub open spec fn reorder_spec(md: Map<u32, MetadataModel>, passes: Seq<PassInfo>, exts: Seq<ExternalOutput>, f: Format, c: SampleCount) -> Result<(Seq<PassInfo>, Map<u32, MetadataModel>), RenderGraphError> {
    reorder_from(apply_externals(md, exts), passes, 0, f, c)
}

fn external_metadata_exec(e: ExternalOutput, access: ResourceAccess) -> (m: ResourceMetadata)
    ensures
        m.wf(),
        m.model() == external_metadata(e, access),
{
    let (template, is_buffer) = match e {
        ExternalOutput::Buffer { .. } => (VkResourceTemplate::ExternalBuffer, true),
        ExternalOutput::RenderTarget { .. } => (VkResourceTemplate::ExternalTexture { is_depth_stencil: false }, false),
        ExternalOutput::DepthStencil { .. } => (VkResourceTemplate::ExternalTexture { is_depth_stencil: true }, false),
    };
    let mut accesses = AssocTable::new();
    accesses.insert(0, access);
    ResourceMetadata {
        template,
        pass_range: ResourcePassRange { first_used_in_pass_index: 0, last_used_in_pass_index: 0 },
        history: None,
        pass_accesses: accesses,
        current_access: make_empty_access(is_buffer),
    }
}

fn external_access_exec(e: ExternalOutput) -> (r: Option<ResourceAccess>)
    ensures
        r == external_access(e),
{
    match e {
        ExternalOutput::Buffer { producer_type, .. } => {
            let usage = match producer_type {
                ExternalProducerType::Graphics => BUFFER_USAGE_FRAGMENT_SHADER_STORAGE_WRITE | BUFFER_USAGE_VERTEX_SHADER_STORAGE_WRITE,
                ExternalProducerType::Compute => BUFFER_USAGE_COMPUTE_SHADER_STORAGE_WRITE,
                ExternalProducerType::Copy => BUFFER_USAGE_COPY_DST,
                ExternalProducerType::Host => 0,
            };
            Some(ResourceAccess::Buffer { usage, primary_usage: usage })
        },
        ExternalOutput::RenderTarget { producer_type, .. } => match producer_type {
            ExternalProducerType::Graphics => Some(ResourceAccess::Texture { usage: TEXTURE_USAGE_RENDER_TARGET, primary_usage: TEXTURE_USAGE_RENDER_TARGET }),
            ExternalProducerType::Compute => Some(ResourceAccess::Texture { usage: TEXTURE_USAGE_COMPUTE_SHADER_STORAGE_WRITE, primary_usage: TEXTURE_USAGE_COMPUTE_SHADER_STORAGE_WRITE }),
            ExternalProducerType::Copy => Some(ResourceAccess::Texture { usage: TEXTURE_USAGE_COPY_DST, primary_usage: TEXTURE_USAGE_COPY_DST }),
            ExternalProducerType::Host => None,
        },
        ExternalOutput::DepthStencil { producer_type, .. } => match producer_type {
            ExternalProducerType::Graphics => Some(ResourceAccess::Texture { usage: TEXTURE_USAGE_DEPTH_WRITE, primary_usage: TEXTURE_USAGE_DEPTH_WRITE }),
            ExternalProducerType::Compute => Some(ResourceAccess::Texture { usage: TEXTURE_USAGE_COMPUTE_SHADER_STORAGE_WRITE, primary_usage: TEXTURE_USAGE_COMPUTE_SHADER_STORAGE_WRITE }),
            ExternalProducerType::Copy => Some(ResourceAccess::Texture { usage: TEXTURE_USAGE_COPY_DST, primary_usage: TEXTURE_USAGE_COPY_DST }),
            ExternalProducerType::Host => None,
        },
    }
}

fn external_name(e: ExternalOutput) -> (n: ResourceName)
    ensures
        n == e.spec_name(),
{
    match e {
        ExternalOutput::Buffer { name, .. } => name,
        ExternalOutput::RenderTarget { name, .. } => name,
        ExternalOutput::DepthStencil { name, .. } => name,
    }
}

/// Decides the order in which the passes run, recording each into `metadata`;
/// the outside resources are registered first.
pub fn reorder_passes(
    passes: Vec<PassInfo>,
    metadata: &mut ResourceTable,
    external_resources: &Vec<ExternalOutput>,
    swapchain_format: Format,
    swapchain_samples: SampleCount,
) -> (r: Result<Vec<PassInfo>, RenderGraphError>)
    requires
        table_wf(*old(metadata)),
        passes@.len() < u32::MAX,
        externals_supported(external_resources@),
        reorder_spec(table_model(*old(metadata)), passes@, external_resources@, swapchain_format, swapchain_samples)
            != Err::<(Seq<PassInfo>, Map<u32, MetadataModel>), RenderGraphError>(RenderGraphError::InvalidRenderGraph),
    ensures
        match reorder_spec(table_model(*old(metadata)), passes@, external_resources@, swapchain_format, swapchain_samples) {
            Ok((order, mdf)) => r matches Ok(v) && v@ == order && table_wf(*final(metadata)) && table_model(*final(metadata)) == mdf,
            Err(e) => r == Err::<Vec<PassInfo>, RenderGraphError>(e),
        },
{
    let ghost md_start = table_model(*metadata);
    let mut k: usize = 0;
    while k < external_resources.len()
        invariant
            k <= external_resources@.len(),
            table_wf(*metadata),
            md_start == table_model(*old(metadata)),
            externals_supported(external_resources@),
            apply_externals(md_start, external_resources@.take(k as int)) == table_model(*metadata),
        decreases external_resources@.len() - k,
    {
        proof {
            assert(external_resources@.take(k as int + 1).drop_last() =~= external_resources@.take(k as int));
        }
        let e = external_resources[k];
        proof {
            assert(external_access(external_resources@[k as int]) is Some);
        }
        let access = external_access_exec(e).unwrap();
        let m = external_metadata_exec(e, access);
        let ghost t0 = *metadata;
        metadata.insert(external_name(e), m);
        proof {
            lemma_table_insert(t0, *metadata, e.spec_name(), m);
        }
        k += 1;
    }
    proof {
        assert(external_resources@.take(external_resources@.len() as int) =~= external_resources@);
    }
    let ghost md_ext = table_model(*metadata);
    let ghost orig = passes@;
    let mut remaining = passes;
    let mut ordered: Vec<PassInfo> = Vec::new();
    while remaining.len() > 0
        invariant
            table_wf(*metadata),
            remaining@.len() + ordered@.len() == orig.len(),
            orig == passes@,
            orig.len() < u32::MAX,
            apply_externals(md_start, external_resources@) == md_ext,
            reorder_from(md_ext, orig, 0, swapchain_format, swapchain_samples)
                != Err::<(Seq<PassInfo>, Map<u32, MetadataModel>), RenderGraphError>(RenderGraphError::InvalidRenderGraph),
            md_start == table_model(*old(metadata)),
            reorder_from(md_ext, orig, 0, swapchain_format, swapchain_samples) == (match reorder_from(table_model(*metadata), remaining@, ordered@.len() as nat, swapchain_format, swapchain_samples) {
                Ok((rest, mdf)) => Ok((ordered@ + rest, mdf)),
                Err(e) => Err(e),
            }),
        decreases remaining@.len(),
    {
        let ghost md_cur = table_model(*metadata);
        let ghost rem = remaining@;
        proof {
            if next_pass_index(md_cur, rem) is None {
                assert(reorder_from(md_cur, rem, ordered@.len() as nat, swapchain_format, swapchain_samples) == Err::<(Seq<PassInfo>, Map<u32, MetadataModel>), RenderGraphError>(RenderGraphError::InvalidRenderGraph));
            }
        }
        let pass = find_next_suitable_pass(&mut remaining, metadata);
        let ghost i = next_pass_index(md_cur, rem).unwrap();
        let p = ordered.len() as u32;
        let res = record_pass(metadata, &pass, p, swapchain_format, swapchain_samples);
        if let Err(e) = res {
            proof {
                assert(reorder_from(md_cur, rem, ordered@.len() as nat, swapchain_format, swapchain_samples) == Err::<(Seq<PassInfo>, Map<u32, MetadataModel>), RenderGraphError>(e));
            }
            return Err(e);
        }
        let ghost ordered_old = ordered@;
        ordered.push(pass);
        proof {
            let md2 = table_model(*metadata);
            let pn = ordered_old.len() as nat;
            assert(pn as u32 == p);
            assert(0 <= i < rem.len());
            assert(rem[i] == pass);
            assert(remaining@ == rem.remove(i));
            assert(apply_events(md_cur, pass_events(rem[i], swapchain_format, swapchain_samples), pn as u32) == Ok::<Map<u32, MetadataModel>, RenderGraphError>(md2));
            assert(reorder_from(md_cur, rem, pn, swapchain_format, swapchain_samples) == (match reorder_from(md2, rem.remove(i), pn + 1, swapchain_format, swapchain_samples) {
                Ok((rest, mdf)) => Ok((seq![rem[i]] + rest, mdf)),
                Err(e) => Err(e),
            }));
            assert(ordered@.len() == pn + 1);
            match reorder_from(md2, remaining@, pn + 1, swapchain_format, swapchain_samples) {
                Ok((rest, mdf)) => {
                    assert(ordered_old + (seq![rem[i]] + rest) =~= ordered@ + rest);
                },
                Err(e) => {},
            }
        }
    }
    proof {
        assert(ordered@ + Seq::<PassInfo>::empty() =~= ordered@);
    }
    Ok(ordered)
}

} // verus!
