//! The compiled form of a render graph: its passes in the order they run, each
//! with its barriers (and render pass), and what is known of every resource.
use vstd::prelude::*;
use crate::fold::{fold_res, lemma_fold_take, lemma_fold_err, lemma_fold_all};
use crate::table::{AssocTable, seq_upsert, has_key, seq_to_map, keys_unique, lemma_seq_to_map, lemma_index_of_key};
use crate::graph_info::{
    ResourceName, Format, SampleCount, PassInput, Output, PassInfo, PassType, ExternalOutput,
    RenderGraphTemplateInfo, BACK_BUFFER_ATTACHMENT_NAME,
};
use crate::graph_resources::{
    MetadataModel, HistoryModel, ResourceMetadata, HistoryResourceMetadata, ResourceTable,
    ResourceAccess, VkResourceTemplate, RenderGraphError, GraphEvent, table_wf, table_model,
    apply_event, apply_events, new_metadata_model,
};
use crate::graph_barrier::{VkBarrierTemplate, table_barrier, build_barrier};
use crate::graph_passes::{
    VkPassTemplate, VkPassType, RpState, graphics_pass_spec, graphics_template_matches,
    set_insert, build_render_pass,
};
use crate::graph_order::{reorder_spec, reorder_from, apply_externals, externals_supported, next_pass_index, reorder_passes, external_access};

verus! {

/// The state of building a compute or copy pass.
pub struct CcState {
    pub md: Map<u32, MetadataModel>,
    pub barriers: Seq<VkBarrierTemplate>,
    pub used: Seq<u32>,
    pub uses_history: bool,
    pub uses_external: bool,
    pub uses_backbuffer: bool,
}

/// An output of a compute or copy pass: its barrier.
pub open spec fn cc_output_step(st: CcState, o: Output, p: u32) -> Result<CcState, RenderGraphError> {
    let (name, texture, counts_history, is_backbuffer) = match o {
        Output::Buffer { name, .. } => (name, false, true, false),
        Output::Backbuffer { .. } => (BACK_BUFFER_ATTACHMENT_NAME, true, false, true),
        Output::DepthStencil { name, .. } => (name, true, true, false),
        Output::RenderTarget { name, .. } => (name, true, true, false),
    };
    match table_barrier(st.md, name, false, p, texture) {
        Err(e) => Err(e),
        Ok((md2, b)) => Ok(CcState {
            md: md2,
            barriers: st.barriers.push(b),
            used: set_insert(st.used, name),
            uses_history: st.uses_history || (counts_history && md2[name].history is Some),
            uses_external: st.uses_external,
            uses_backbuffer: st.uses_backbuffer || is_backbuffer,
        }),
    }
}

/// An input of a compute or copy pass: its barrier; the back buffer cannot be read.
pub open spec fn cc_input_step(st: CcState, input: PassInput, p: u32) -> Result<CcState, RenderGraphError> {
    let name = input.name;
    if !st.md.dom().contains(name) {
        Err(RenderGraphError::MissingResource { name })
    } else {
        let m = st.md[name];
        let external = m.template is ExternalBuffer || m.template is ExternalTexture;
        let texture = m.template is Texture || m.template is ExternalTexture;
        if m.template matches VkResourceTemplate::Texture { is_backbuffer, .. } && is_backbuffer {
            Err(RenderGraphError::BackbufferAsInput)
        } else {
            match table_barrier(st.md, name, input.is_history, p, texture) {
                Err(e) => Err(e),
                Ok((md2, b)) => Ok(CcState {
                    md: md2,
                    barriers: st.barriers.push(b),
                    used: set_insert(st.used, name),
                    uses_history: st.uses_history || m.history is Some,
                    uses_external: st.uses_external || external,
                    uses_backbuffer: st.uses_backbuffer,
                }),
            }
        }
    }
}

pub open spec fn cc_output_stepper(p: u32) -> spec_fn(CcState, Output) -> Result<CcState, RenderGraphError> {
    |st: CcState, o: Output| cc_output_step(st, o, p)
}

pub open spec fn cc_input_stepper(p: u32) -> spec_fn(CcState, PassInput) -> Result<CcState, RenderGraphError> {
    |st: CcState, i: PassInput| cc_input_step(st, i, p)
}

pub open spec fn cc_initial(md: Map<u32, MetadataModel>) -> CcState {
    CcState { md, barriers: Seq::empty(), used: Seq::empty(), uses_history: false, uses_external: false, uses_backbuffer: false }
}

/// Compute or copy pass `p` built from its outputs and then its inputs.
pub open spec fn compute_copy_pass_spec(md: Map<u32, MetadataModel>, inputs: Seq<PassInput>, outputs: Seq<Output>, p: u32) -> Result<CcState, RenderGraphError> {
    match fold_res(cc_initial(md), outputs, cc_output_stepper(p)) {
        Err(e) => Err(e),
        Ok(s) => fold_res(s, inputs, cc_input_stepper(p)),
    }
}

/// The template matches the finished state of a compute or copy pass.
pub open spec fn compute_template_matches(t: VkPassTemplate, st: CcState, is_compute: bool) -> bool {
    &&& t.renders_to_swapchain == st.uses_backbuffer
    &&& t.has_history_resources == st.uses_history
    &&& t.has_external_resources == st.uses_external
    &&& t.resources@ == st.used
    &&& t.barriers@ == st.barriers
    &&& t.pass_type == (VkPassType::ComputeCopy { is_compute })
}

struct CcBuilder {
    barriers: Vec<VkBarrierTemplate>,
    used: Vec<u32>,
    uses_history: bool,
    uses_external: bool,
    uses_backbuffer: bool,
}

spec fn cc_state(b: CcBuilder, t: ResourceTable) -> CcState {
    CcState {
        md: table_model(t),
        barriers: b.barriers@,
        used: b.used@,
        uses_history: b.uses_history,
        uses_external: b.uses_external,
        uses_backbuffer: b.uses_backbuffer,
    }
}

fn set_insert_exec(v: &mut Vec<u32>, x: u32)
    ensures
        final(v)@ == set_insert(old(v)@, x),
{
    let mut k: usize = 0;
    while k < v.len()
        invariant
            k <= v@.len(),
            forall|i: int| 0 <= i < k ==> v@[i] != x,
        decreases v@.len() - k,
    {
        if v[k] == x {
            assert(v@.contains(x));
            return;
        }
        k += 1;
    }
    v.push(x);
}

fn has_history_exec(table: &ResourceTable, name: ResourceName) -> (b: bool)
    requires
        table_wf(*table),
        table_model(*table).dom().contains(name),
    ensures
        b == table_model(*table)[name].history is Some,
{
    proof {
        assert(table@.dom().contains(name));
    }
    table.get(name).unwrap().history.is_some()
}

fn cc_output_exec(b: &mut CcBuilder, table: &mut ResourceTable, o: Output, p: u32) -> (r: Result<(), RenderGraphError>)
    requires
        table_wf(*old(table)),
    ensures
        match cc_output_step(cc_state(*old(b), *old(table)), o, p) {
            Ok(st) => r is Ok && table_wf(*final(table)) && cc_state(*final(b), *final(table)) == st,
            Err(e) => r == Err::<(), RenderGraphError>(e),
        },
{
    let (name, texture, counts_history, is_backbuffer) = match o {
        Output::Buffer { name, .. } => (name, false, true, false),
        Output::Backbuffer { .. } => (BACK_BUFFER_ATTACHMENT_NAME, true, false, true),
        Output::DepthStencil { name, .. } => (name, true, true, false),
        Output::RenderTarget { name, .. } => (name, true, true, false),
    };
    let barrier = build_barrier(table, name, false, p, texture)?;
    let h = if counts_history { has_history_exec(table, name) } else { false };
    b.barriers.push(barrier);
    set_insert_exec(&mut b.used, name);
    b.uses_history = b.uses_history || h;
    b.uses_backbuffer = b.uses_backbuffer || is_backbuffer;
    Ok(())
}

fn cc_input_exec(b: &mut CcBuilder, table: &mut ResourceTable, input: PassInput, p: u32) -> (r: Result<(), RenderGraphError>)
    requires
        table_wf(*old(table)),
        cc_input_step(cc_state(*old(b), *old(table)), input, p) != Err::<CcState, RenderGraphError>(RenderGraphError::BackbufferAsInput),
    ensures
        match cc_input_step(cc_state(*old(b), *old(table)), input, p) {
            Ok(st) => r is Ok && table_wf(*final(table)) && cc_state(*final(b), *final(table)) == st,
            Err(e) => r == Err::<(), RenderGraphError>(e),
        },
{
    let name = input.name;
    let (texture, external, history) = match table.get(name) {
        None => return Err(RenderGraphError::MissingResource { name }),
        Some(m) => {
            let h = m.history.is_some();
            match m.template {
                VkResourceTemplate::Texture { .. } => (true, false, h),
                VkResourceTemplate::Buffer { .. } => (false, false, h),
                VkResourceTemplate::ExternalTexture { .. } => (true, true, h),
                VkResourceTemplate::ExternalBuffer => (false, true, h),
            }
        },
    };
    let barrier = build_barrier(table, name, input.is_history, p, texture)?;
    b.barriers.push(barrier);
    set_insert_exec(&mut b.used, name);
    b.uses_history = b.uses_history || history;
    b.uses_external = b.uses_external || external;
    Ok(())
}

/// Builds the template of compute (`is_compute`) or copy pass `p` named `name`;
/// the pass must not read the back buffer.
pub fn build_compute_copy_pass(
    inputs: &Vec<PassInput>,
    outputs: &Vec<Output>,
    name: String,
    pass_index: u32,
    attachment_metadata: &mut ResourceTable,
    is_compute: bool,
) -> (r: Result<VkPassTemplate, RenderGraphError>)
    requires
        table_wf(*old(attachment_metadata)),
        compute_copy_pass_spec(table_model(*old(attachment_metadata)), inputs@, outputs@, pass_index)
            != Err::<CcState, RenderGraphError>(RenderGraphError::BackbufferAsInput),
    ensures
        match compute_copy_pass_spec(table_model(*old(attachment_metadata)), inputs@, outputs@, pass_index) {
            Ok(st) => r matches Ok(t) && t.name == name && compute_template_matches(t, st, is_compute)
                && table_wf(*final(attachment_metadata)) && table_model(*final(attachment_metadata)) == st.md,
            Err(e) => r is Err && r->Err_0 == e,
        },
{
    let mut b = CcBuilder { barriers: Vec::new(), used: Vec::new(), uses_history: false, uses_external: false, uses_backbuffer: false };
    let ghost st0 = cc_state(b, *attachment_metadata);
    proof {
        assert(st0 == cc_initial(table_model(*attachment_metadata)));
    }
    let mut j: usize = 0;
    while j < outputs.len()
        invariant
            j <= outputs@.len(),
            table_wf(*attachment_metadata),
            st0 == cc_initial(table_model(*old(attachment_metadata))),
            fold_res(st0, outputs@.take(j as int), cc_output_stepper(pass_index)) == Ok::<CcState, RenderGraphError>(cc_state(b, *attachment_metadata)),
        decreases outputs@.len() - j,
    {
        proof {
            lemma_fold_take(st0, outputs@, j as int, cc_output_stepper(pass_index));
        }
        let res = cc_output_exec(&mut b, attachment_metadata, outputs[j], pass_index);
        if let Err(e) = res {
            proof {
                lemma_fold_err(st0, outputs@, j as int + 1, cc_output_stepper(pass_index));
            }
            return Err(e);
        }
        j += 1;
    }
    proof {
        lemma_fold_all(st0, outputs@, cc_output_stepper(pass_index));
    }
    let ghost s1 = cc_state(b, *attachment_metadata);
    let mut k: usize = 0;
    while k < inputs.len()
        invariant
            k <= inputs@.len(),
            table_wf(*attachment_metadata),
            st0 == cc_initial(table_model(*old(attachment_metadata))),
            fold_res(st0, outputs@, cc_output_stepper(pass_index)) == Ok::<CcState, RenderGraphError>(s1),
            fold_res(s1, inputs@.take(k as int), cc_input_stepper(pass_index)) == Ok::<CcState, RenderGraphError>(cc_state(b, *attachment_metadata)),
            compute_copy_pass_spec(table_model(*old(attachment_metadata)), inputs@, outputs@, pass_index)
                != Err::<CcState, RenderGraphError>(RenderGraphError::BackbufferAsInput),
        decreases inputs@.len() - k,
    {
        proof {
            lemma_fold_take(s1, inputs@, k as int, cc_input_stepper(pass_index));
            if cc_input_step(cc_state(b, *attachment_metadata), inputs@[k as int], pass_index) is Err {
                lemma_fold_err(s1, inputs@, k as int + 1, cc_input_stepper(pass_index));
            }
        }
        let res = cc_input_exec(&mut b, attachment_metadata, inputs[k], pass_index);
        if let Err(e) = res {
            proof {
                lemma_fold_err(s1, inputs@, k as int + 1, cc_input_stepper(pass_index));
            }
            return Err(e);
        }
        k += 1;
    }
    proof {
        lemma_fold_all(s1, inputs@, cc_input_stepper(pass_index));
    }
    let CcBuilder { barriers, used, uses_history, uses_external, uses_backbuffer } = b;
    Ok(VkPassTemplate {
        name,
        barriers,
        pass_type: VkPassType::ComputeCopy { is_compute },
        renders_to_swapchain: uses_backbuffer,
        has_history_resources: uses_history,
        has_external_resources: uses_external,
        resources: used,
    })
}


/// Every resource has at least one recorded access.
pub open spec fn all_accesses_nonempty(md: Map<u32, MetadataModel>) -> bool {
    forall|k: u32| #[trigger] md.dom().contains(k) ==> md[k].pass_accesses.len() > 0
}

proof fn lemma_upsert_nonempty(s: Seq<(u32, ResourceAccess)>, k: u32, v: ResourceAccess)
    ensures
        seq_upsert(s, k, v).len() > 0,
{
    if has_key(s, k) {
        lemma_index_of_key(s, k);
    }
}

proof fn lemma_apply_events_nonempty(md: Map<u32, MetadataModel>, evs: Seq<GraphEvent>, p: u32)
    requires
        all_accesses_nonempty(md),
        apply_events(md, evs, p) is Ok,
    ensures
        all_accesses_nonempty(apply_events(md, evs, p).unwrap()),
    decreases evs.len(),
{
    if evs.len() > 0 {
        lemma_apply_events_nonempty(md, evs.drop_last(), p);
        let m = apply_events(md, evs.drop_last(), p).unwrap();
        let ev = evs.last();
        let m2 = apply_event(m, ev, p).unwrap();
        assert forall|k: u32| #[trigger] m2.dom().contains(k) implies m2[k].pass_accesses.len() > 0 by {
            match ev {
                GraphEvent::Output { name, template, access } => {
                    if k == name {
                        let old_m = if m.dom().contains(name) { m[name] } else { new_metadata_model(template) };
                        lemma_upsert_nonempty(old_m.pass_accesses, p, access);
                    }
                },
                GraphEvent::DepthInput { name, .. } => {
                    if k == name {
                        lemma_upsert_nonempty(m[name].pass_accesses, p, crate::graph_resources::access_of(false, crate::graph_resources::TEXTURE_USAGE_DEPTH_READ));
                    }
                },
                GraphEvent::GraphicsInput { input } => {
                    if k == input.name {
                        assert(m.dom().contains(k));
                        assert forall|a: ResourceAccess| seq_upsert(m[k].pass_accesses, p, a).len() > 0 by {
                            lemma_upsert_nonempty(m[k].pass_accesses, p, a);
                        }
                    }
                },
                GraphEvent::ComputeInput { input } => {
                    if k == input.name {
                        assert(m.dom().contains(k));
                        assert forall|a: ResourceAccess| seq_upsert(m[k].pass_accesses, p, a).len() > 0 by {
                            lemma_upsert_nonempty(m[k].pass_accesses, p, a);
                        }
                    }
                },
                GraphEvent::CopyInput { input } => {
                    if k == input.name {
                        assert(m.dom().contains(k));
                        assert forall|a: ResourceAccess| seq_upsert(m[k].pass_accesses, p, a).len() > 0 by {
                            lemma_upsert_nonempty(m[k].pass_accesses, p, a);
                        }
                    }
                },
            }
        }
    }
}

proof fn lemma_reorder_nonempty(md: Map<u32, MetadataModel>, rem: Seq<PassInfo>, p: nat, f: Format, c: SampleCount)
    requires
        all_accesses_nonempty(md),
        reorder_from(md, rem, p, f, c) is Ok,
    ensures
        all_accesses_nonempty(reorder_from(md, rem, p, f, c).unwrap().1),
    decreases rem.len(),
{
    if rem.len() > 0 {
        let i = next_pass_index(md, rem).unwrap();
        lemma_apply_events_nonempty(md, crate::graph_resources::pass_events(rem[i], f, c), p as u32);
        let md2 = apply_events(md, crate::graph_resources::pass_events(rem[i], f, c), p as u32).unwrap();
        lemma_reorder_nonempty(md2, rem.remove(i), p + 1, f, c);
    }
}

proof fn lemma_externals_nonempty(md: Map<u32, MetadataModel>, exts: Seq<ExternalOutput>)
    requires
        all_accesses_nonempty(md),
    ensures
        all_accesses_nonempty(apply_externals(md, exts)),
    decreases exts.len(),
{
    if exts.len() > 0 {
        lemma_externals_nonempty(md, exts.drop_last());
        let e = exts.last();
        lemma_upsert_nonempty(Seq::empty(), 0, external_access(e).unwrap());
    }
}

/// The entry with the greatest pass index (the last of equals).
pub open spec fn max_entry(s: Seq<(u32, ResourceAccess)>) -> (u32, ResourceAccess)
    decreases s.len(),
{
    if s.len() <= 1 {
        s[0]
    } else {
        let m = max_entry(s.drop_last());
        if s.last().0 >= m.0 { s.last() } else { m }
    }
}

/// A resource whose history is read starts each frame in the access of the
/// last pass that uses it.
pub open spec fn prepare_metadata(m: MetadataModel) -> MetadataModel {
    match m.history {
        None => m,
        Some(h) => {
            let a = max_entry(m.pass_accesses).1;
            MetadataModel {
                history: Some(HistoryModel {
                    current_access: a,
                    initial_usage: match a {
                        ResourceAccess::Buffer { .. } => 0,
                        ResourceAccess::Texture { usage, .. } => usage,
                    },
                    ..h
                }),
                ..m
            }
        },
    }
}

pub open spec fn prepare_histories(md: Map<u32, MetadataModel>) -> Map<u32, MetadataModel> {
    md.map_values(|m: MetadataModel| prepare_metadata(m))
}

fn max_entry_exec(t: &AssocTable<ResourceAccess>) -> (r: ResourceAccess)
    requires
        t.entries().len() > 0,
    ensures
        r == max_entry(t.entries()).1,
{
    let first = t.entry(0);
    let mut best_key = first.0;
    let mut best = first.1;
    let mut k: usize = 1;
    proof {
        assert(t.entries().take(1).len() == 1);
    }
    while k < t.len()
        invariant
            1 <= k <= t.entries().len(),
            (best_key, best) == max_entry(t.entries().take(k as int)),
        decreases t.entries().len() - k,
    {
        proof {
            assert(t.entries().take(k as int + 1).drop_last() =~= t.entries().take(k as int));
        }
        let e = t.entry(k);
        if e.0 >= best_key {
            best_key = e.0;
            best = e.1;
        }
        k += 1;
    }
    proof {
        assert(t.entries().take(t.entries().len() as int) =~= t.entries());
    }
    best
}

fn prepare_metadata_exec(m: ResourceMetadata) -> (r: ResourceMetadata)
    requires
        m.wf(),
        m.history is Some ==> m.pass_accesses.entries().len() > 0,
    ensures
        r.wf(),
        r.model() == prepare_metadata(m.model()),
{
    let ResourceMetadata { template, pass_range, history, pass_accesses, current_access } = m;
    match history {
        None => ResourceMetadata { template, pass_range, history: None, pass_accesses, current_access },
        Some(h) => {
            let a = max_entry_exec(&pass_accesses);
            let initial_usage = match a {
                ResourceAccess::Buffer { .. } => 0,
                ResourceAccess::Texture { usage, .. } => usage,
            };
            let HistoryResourceMetadata { pass_range: h_range, pass_accesses: h_accesses, .. } = h;
            let h2 = HistoryResourceMetadata { pass_range: h_range, pass_accesses: h_accesses, current_access: a, initial_usage };
            ResourceMetadata { template, pass_range, history: Some(h2), pass_accesses, current_access }
        },
    }
}

/// Puts every resource whose history is read in the access of its last use.
fn prepare_histories_exec(table: &mut ResourceTable)
    requires
        table_wf(*old(table)),
        all_accesses_nonempty(table_model(*old(table))),
    ensures
        table_wf(*final(table)),
        table_model(*final(table)) == prepare_histories(table_model(*old(table))),
{
    let ghost orig = table.entries();
    proof {
        lemma_seq_to_map(orig);
    }
    let mut i: usize = 0;
    while i < table.len()
        invariant
            i <= table.entries().len(),
            table.entries().len() == orig.len(),
            keys_unique(orig),
            keys_unique(table.entries()),
            table_model(*old(table)) == seq_to_map(orig).map_values(|m: ResourceMetadata| m.model()),
            all_accesses_nonempty(table_model(*old(table))),
            forall|k: u32| #[trigger] seq_to_map(orig).dom().contains(k) ==> seq_to_map(orig)[k].wf(),
            forall|k: u32| #[trigger] seq_to_map(orig).dom().contains(k) <==> has_key(orig, k),
            forall|j: int| 0 <= j < orig.len() ==> #[trigger] seq_to_map(orig)[orig[j].0] == orig[j].1,
            forall|j: int| 0 <= j < orig.len() ==> #[trigger] table.entries()[j].0 == orig[j].0,
            forall|j: int| 0 <= j < i ==> (#[trigger] table.entries()[j]).1.wf() && table.entries()[j].1.model() == prepare_metadata(orig[j].1.model()),
            forall|j: int| i <= j < orig.len() ==> #[trigger] table.entries()[j] == orig[j],
        decreases orig.len() - i,
    {
        let ghost before = table.entries();
        let (k, m) = table.take_at(i);
        proof {
            assert(has_key(orig, k)) by {
                assert(orig[i as int].0 == k);
            }
            assert(seq_to_map(orig).dom().contains(k));
            assert(m.wf());
            assert(table_model(*old(table)).dom().contains(k));
            assert(table_model(*old(table))[k] == m.model());
            assert(m.model().pass_accesses.len() > 0);
        }
        let m2 = prepare_metadata_exec(m);
        proof {
            assert(before.remove(i as int).insert(i as int, (k, m2)) =~= before.update(i as int, (k, m2)));
            assert(keys_unique(before.update(i as int, (k, m2)))) by {
                assert forall|a: int, b: int| 0 <= a < b < before.len() implies #[trigger] before.update(i as int, (k, m2))[a].0 != #[trigger] before.update(i as int, (k, m2))[b].0 by {
                    assert(before[a].0 != before[b].0);
                }
            }
        }
        table.restore(i, k, m2);
        proof {
            assert(table.entries() == before.update(i as int, (k, m2)));
            assert(before[i as int] == orig[i as int]);
        }
        i += 1;
    }
    proof {
        let fin = table.entries();
        lemma_seq_to_map(fin);
        let lhs = table_model(*table);
        let rhs = prepare_histories(table_model(*old(table)));
        assert forall|k: u32| lhs.dom().contains(k) <==> rhs.dom().contains(k) by {
            if has_key(fin, k) {
                let j = choose|j: int| 0 <= j < fin.len() && #[trigger] fin[j].0 == k;
                assert(orig[j].0 == k);
            }
            if has_key(orig, k) {
                let j = choose|j: int| 0 <= j < orig.len() && #[trigger] orig[j].0 == k;
                assert(fin[j].0 == k);
            }
        }
        assert forall|k: u32| #[trigger] lhs.dom().contains(k) implies lhs[k] == rhs[k] by {
            let j = choose|j: int| 0 <= j < fin.len() && #[trigger] fin[j].0 == k;
            assert(seq_to_map(fin)[fin[j].0] == fin[j].1);
            assert(orig[j].0 == k);
            assert(seq_to_map(orig)[orig[j].0] == orig[j].1);
            assert(lhs[k] == fin[j].1.model());
            assert(table_model(*old(table)).dom().contains(k));
            assert(table_model(*old(table))[k] == orig[j].1.model());
            assert(rhs[k] == prepare_metadata(table_model(*old(table))[k]));
            assert(fin[j].1.model() == prepare_metadata(orig[j].1.model()));
        }
        assert(lhs =~= rhs);
        assert forall|k: u32| #[trigger] table@.dom().contains(k) implies table@[k].wf() by {
            let j = choose|j: int| 0 <= j < fin.len() && #[trigger] fin[j].0 == k;
            assert(seq_to_map(fin)[fin[j].0] == fin[j].1);
        }
    }
}

/// How a pass was built.
pub enum PassBuild {
    Graphics(RpState),
    ComputeCopy(CcState, bool),
}

/// The state of building all passes: the table and what each pass became.
pub struct BuildAll {
    pub md: Map<u32, MetadataModel>,
    pub built: Seq<PassBuild>,
}

/// Pass `p` built from the table `md`.
pub open spec fn build_pass_spec(md: Map<u32, MetadataModel>, pass: PassInfo, f: Format, c: SampleCount, p: u32) -> Result<(Map<u32, MetadataModel>, PassBuild), RenderGraphError> {
    match pass.pass_type {
        PassType::Graphics { subpasses } => match graphics_pass_spec(md, subpasses@, f, c, p) {
            Ok(st) => Ok((st.md, PassBuild::Graphics(st))),
            Err(e) => Err(e),
        },
        PassType::Compute { inputs, outputs } => match compute_copy_pass_spec(md, inputs@, outputs@, p) {
            Ok(st) => Ok((st.md, PassBuild::ComputeCopy(st, true))),
            Err(e) => Err(e),
        },
        PassType::Copy { inputs, outputs } => match compute_copy_pass_spec(md, inputs@, outputs@, p) {
            Ok(st) => Ok((st.md, PassBuild::ComputeCopy(st, false))),
            Err(e) => Err(e),
        },
    }
}

pub open spec fn build_stepper(f: Format, c: SampleCount) -> spec_fn(BuildAll, PassInfo) -> Result<BuildAll, RenderGraphError> {
    |st: BuildAll, pass: PassInfo| match build_pass_spec(st.md, pass, f, c, st.built.len() as u32) {
        Ok((md2, pb)) => Ok(BuildAll { md: md2, built: st.built.push(pb) }),
        Err(e) => Err(e),
    }
}

/// A compiled render graph: the order of the passes and what each became.
pub open spec fn template_spec(passes: Seq<PassInfo>, exts: Seq<ExternalOutput>, f: Format, c: SampleCount) -> Result<(Seq<PassInfo>, BuildAll), RenderGraphError> {
    match reorder_spec(Map::empty(), passes, exts, f, c) {
        Err(e) => Err(e),
        Ok((order, md1)) => match fold_res(BuildAll { md: prepare_histories(md1), built: Seq::empty() }, order, build_stepper(f, c)) {
            Ok(b) => Ok((order, b)),
            Err(e) => Err(e),
        },
    }
}

/// The pass writes the swapchain's back buffer.
pub open spec fn pass_build_renders(pb: PassBuild) -> bool {
    match pb {
        PassBuild::Graphics(st) => st.renders_to_swapchain,
        PassBuild::ComputeCopy(st, _) => st.uses_backbuffer,
    }
}

/// The template of a pass matches how it was built.
#[verifier::opaque]
pub open spec fn pass_template_matches(t: VkPassTemplate, pass: PassInfo, pb: PassBuild) -> bool {
    &&& t.name == pass.name
    &&& match pb {
        PassBuild::Graphics(st) => graphics_template_matches(t, st),
        PassBuild::ComputeCopy(st, is_compute) => compute_template_matches(t, st, is_compute),
    }
}

/// Builds the template of pass `p`.
fn build_pass(pass: PassInfo, p: u32, metadata: &mut ResourceTable, f: Format, c: SampleCount) -> (r: Result<VkPassTemplate, RenderGraphError>)
    requires
        table_wf(*old(metadata)),
        build_pass_spec(table_model(*old(metadata)), pass, f, c, p)
            != Err::<(Map<u32, MetadataModel>, PassBuild), RenderGraphError>(RenderGraphError::BackbufferAsInput),
    ensures
        match build_pass_spec(table_model(*old(metadata)), pass, f, c, p) {
            Ok((md2, pb)) => r matches Ok(t) && pass_template_matches(t, pass, pb) && table_wf(*final(metadata)) && table_model(*final(metadata)) == md2
                && t.renders_to_swapchain == pass_build_renders(pb),
            Err(e) => r is Err && r->Err_0 == e,
        },
{
    reveal(pass_template_matches);
    let ghost pass_s = pass;
    let PassInfo { name, pass_type } = pass;
    match &pass_type {
        PassType::Graphics { subpasses } => build_render_pass(subpasses, name, p, metadata, f, c),
        PassType::Compute { inputs, outputs } => build_compute_copy_pass(inputs, outputs, name, p, metadata, true),
        PassType::Copy { inputs, outputs } => build_compute_copy_pass(inputs, outputs, name, p, metadata, false),
    }
}

/// A compiled render graph.
pub struct VkRenderGraphTemplate {
    pub does_render_to_frame_buffer: bool,
    pub passes: Vec<VkPassTemplate>,
    pub resources: ResourceTable,
}

impl VkRenderGraphTemplate {
    /// Compiles a render graph: orders its passes, records their use of every
    /// resource, and builds the template of each pass. The host may produce
    /// only outside buffers, some pass must be ready at every step, and no
    /// compute or copy pass may read the back buffer.
    #[verifier::rlimit(60)]
    pub fn new(info: RenderGraphTemplateInfo) -> (r: Result<Self, RenderGraphError>)
        requires
            info.passes@.len() < u32::MAX,
            externals_supported(info.external_resources@),
            template_spec(info.passes@, info.external_resources@, info.swapchain_format, info.swapchain_sample_count)
                != Err::<(Seq<PassInfo>, BuildAll), RenderGraphError>(RenderGraphError::InvalidRenderGraph),
            template_spec(info.passes@, info.external_resources@, info.swapchain_format, info.swapchain_sample_count)
                != Err::<(Seq<PassInfo>, BuildAll), RenderGraphError>(RenderGraphError::BackbufferAsInput),
        ensures
            match template_spec(info.passes@, info.external_resources@, info.swapchain_format, info.swapchain_sample_count) {
                Ok((order, b)) => r matches Ok(t) && t.passes@.len() == order.len() && b.built.len() == order.len()
                    && (forall|i: int| 0 <= i < order.len() ==> #[trigger] pass_template_matches(t.passes@[i], order[i], b.built[i]))
                    && table_wf(t.resources) && table_model(t.resources) == b.md
                    && t.does_render_to_frame_buffer == (exists|i: int| 0 <= i < b.built.len() && #[trigger] pass_build_renders(b.built[i])),
                Err(e) => r is Err && r->Err_0 == e,
            },
    {
        let RenderGraphTemplateInfo { passes, external_resources, swapchain_format, swapchain_sample_count } = info;
        let mut metadata: ResourceTable = AssocTable::new();
        proof {
            assert(table_model(metadata) =~= Map::<u32, MetadataModel>::empty());
        }
        let order = reorder_passes(passes, &mut metadata, &external_resources, swapchain_format, swapchain_sample_count)?;
        let ghost order_s = order@;
        proof {
            lemma_externals_nonempty(Map::empty(), external_resources@);
            let md_ext = apply_externals(Map::empty(), external_resources@);
            assert(reorder_from(md_ext, passes@, 0, swapchain_format, swapchain_sample_count) == Ok::<(Seq<PassInfo>, Map<u32, MetadataModel>), RenderGraphError>((order_s, table_model(metadata))));
            lemma_reorder_nonempty(md_ext, passes@, 0, swapchain_format, swapchain_sample_count);
            crate::graph_laws::law_reorder_is_permutation(Map::empty(), passes@, external_resources@, swapchain_format, swapchain_sample_count);
            vstd::seq_lib::to_multiset_len(order_s);
            vstd::seq_lib::to_multiset_len(passes@);
        }
        prepare_histories_exec(&mut metadata);
        let ghost st0 = BuildAll { md: table_model(metadata), built: Seq::empty() };
        let ghost mut cur: BuildAll = st0;
        let ghost stepper = build_stepper(swapchain_format, swapchain_sample_count);
        let ghost want = template_spec(info.passes@, info.external_resources@, info.swapchain_format, info.swapchain_sample_count);
        proof {
            assert(want == (match fold_res(st0, order_s, stepper) {
                Ok(b) => Ok((order_s, b)),
                Err(e) => Err(e),
            }));
        }
        let mut remaining = order;
        let mut templates: Vec<VkPassTemplate> = Vec::new();
        let mut did_render = false;
        let mut k: usize = 0;
        proof {
            assert(order_s.subrange(0, order_s.len() as int) =~= order_s);
            assert(order_s.take(0) =~= Seq::<PassInfo>::empty());
        }
        while remaining.len() > 0
            invariant
                k <= order_s.len(),
                order_s.len() < u32::MAX,
                remaining@ == order_s.subrange(k as int, order_s.len() as int),
                table_wf(metadata),
                templates@.len() == k,
                cur.built.len() == k,
                cur.md == table_model(metadata),
                stepper == build_stepper(swapchain_format, swapchain_sample_count),
                want == template_spec(info.passes@, info.external_resources@, info.swapchain_format, info.swapchain_sample_count),
                want == (match fold_res(st0, order_s, stepper) {
                    Ok(b) => Ok((order_s, b)),
                    Err(e) => Err(e),
                }),
                want != Err::<(Seq<PassInfo>, BuildAll), RenderGraphError>(RenderGraphError::BackbufferAsInput),
                fold_res(st0, order_s.take(k as int), stepper) == Ok::<BuildAll, RenderGraphError>(cur),
                forall|i: int| 0 <= i < k ==> #[trigger] pass_template_matches(templates@[i], order_s[i], cur.built[i]),
                did_render == (exists|i: int| 0 <= i < k && #[trigger] pass_build_renders(cur.built[i])),
            decreases remaining@.len(),
        {
            proof {
                lemma_fold_take(st0, order_s, k as int, stepper);
            }
            let pass = remaining.remove(0);
            proof {
                assert(pass == order_s[k as int]);
                assert(remaining@ =~= order_s.subrange(k as int + 1, order_s.len() as int));
                if build_pass_spec(cur.md, pass, swapchain_format, swapchain_sample_count, k as u32) is Err {
                    lemma_fold_err(st0, order_s, k as int + 1, stepper);
                }
            }
            let res = build_pass(pass, k as u32, &mut metadata, swapchain_format, swapchain_sample_count);
            match res {
                Err(e) => {
                    proof {
                        lemma_fold_err(st0, order_s, k as int + 1, stepper);
                    }
                    return Err(e);
                },
                Ok(t) => {
                    let ghost pb = build_pass_spec(cur.md, order_s[k as int], swapchain_format, swapchain_sample_count, k as u32).unwrap().1;
                    did_render = did_render || t.renders_to_swapchain;
                    let ghost old_built = cur.built;
                    templates.push(t);
                    proof {
                        cur = BuildAll { md: table_model(metadata), built: cur.built.push(pb) };
                        assert forall|i: int| 0 <= i < k + 1 implies #[trigger] pass_template_matches(templates@[i], order_s[i], cur.built[i]) by {
                            if i < k {
                                assert(templates@[i] == templates@.drop_last()[i]);
                                assert(cur.built[i] == old_built[i]);
                            }
                        }
                        assert(did_render == (exists|i: int| 0 <= i < k + 1 && #[trigger] pass_build_renders(cur.built[i]))) by {
                            if did_render {
                                if pass_build_renders(pb) {
                                    assert(pass_build_renders(cur.built[k as int]));
                                } else {
                                    let i = choose|i: int| 0 <= i < k && #[trigger] pass_build_renders(old_built[i]);
                                    assert(cur.built[i] == old_built[i]);
                                }
                            } else {
                                assert forall|i: int| 0 <= i < k + 1 implies !#[trigger] pass_build_renders(cur.built[i]) by {
                                    if i < k {
                                        assert(cur.built[i] == old_built[i]);
                                    }
                                }
                            }
                        }
                    }
                    k += 1;
                },
            }
        }
        proof {
            assert(order_s.take(k as int) =~= order_s);
        }
        Ok(VkRenderGraphTemplate { does_render_to_frame_buffer: did_render, passes: templates, resources: metadata })
    }

    /// The templates of the passes, in the order they run.
    pub fn passes(&self) -> (r: &Vec<VkPassTemplate>)
        ensures
            r == &self.passes,
    {
        &self.passes
    }

    /// What is known of every resource.
    pub fn resources(&self) -> (r: &ResourceTable)
        ensures
            r == &self.resources,
    {
        &self.resources
    }

    /// Some pass writes the swapchain's back buffer.
    pub fn renders_to_swapchain(&self) -> (b: bool)
        ensures
            b == self.does_render_to_frame_buffer,
    {
        self.does_render_to_frame_buffer
    }
}

} // verus!
