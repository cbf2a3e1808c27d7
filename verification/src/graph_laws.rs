//! Properties of the pass order that hold for every render graph.
use vstd::prelude::*;
use crate::graph_info::{ResourceName, Format, SampleCount, PassInfo, ExternalOutput};
use crate::graph_resources::{
    MetadataModel, GraphEvent, apply_event, apply_events, pass_events,
};
use crate::graph_order::{reorder_from, reorder_spec, apply_externals, next_pass_index};

verus! {

broadcast use vstd::seq_lib::group_to_multiset_ensures, vstd::multiset::group_multiset_axioms;

/// The name an event reads: a pass input (of the current or the previous
/// frame) or a depth stencil input.
pub open spec fn event_read_name(ev: GraphEvent) -> Option<ResourceName> {
    match ev {
        GraphEvent::Output { .. } => None,
        GraphEvent::GraphicsInput { input } => Some(input.name),
        GraphEvent::DepthInput { name, .. } => Some(name),
        GraphEvent::ComputeInput { input } => Some(input.name),
        GraphEvent::CopyInput { input } => Some(input.name),
    }
}

/// The name an event writes.
pub open spec fn event_written_name(ev: GraphEvent) -> Option<ResourceName> {
    match ev {
        GraphEvent::Output { name, .. } => Some(name),
        _ => None,
    }
}

/// Pass `pass` reads `name`.
pub open spec fn pass_reads(pass: PassInfo, f: Format, c: SampleCount, name: ResourceName) -> bool {
    exists|k: int| 0 <= k < pass_events(pass, f, c).len() && event_read_name(#[trigger] pass_events(pass, f, c)[k]) == Some(name)
}

/// Pass `pass` writes `name`.
pub open spec fn pass_writes_name(pass: PassInfo, f: Format, c: SampleCount, name: ResourceName) -> bool {
    exists|k: int| 0 <= k < pass_events(pass, f, c).len() && event_written_name(#[trigger] pass_events(pass, f, c)[k]) == Some(name)
}

/// `name` is an outside resource.
pub open spec fn is_external(exts: Seq<ExternalOutput>, name: ResourceName) -> bool {
    exists|k: int| 0 <= k < exts.len() && (#[trigger] exts[k]).spec_name() == name
}

proof fn lemma_apply_event_dom(md: Map<u32, MetadataModel>, ev: GraphEvent, p: u32)
    requires
        apply_event(md, ev, p) is Ok,
    ensures
        md.dom().subset_of(apply_event(md, ev, p).unwrap().dom()),
        forall|n: u32| #[trigger] apply_event(md, ev, p).unwrap().dom().contains(n) ==> md.dom().contains(n) || event_written_name(ev) == Some(n),
        event_read_name(ev) matches Some(n) ==> md.dom().contains(n),
{
}

/// Recording events only adds the names they write, and every name they read
/// exists once they are recorded.
proof fn lemma_apply_events_dom(md: Map<u32, MetadataModel>, evs: Seq<GraphEvent>, p: u32)
    requires
        apply_events(md, evs, p) is Ok,
    ensures
        md.dom().subset_of(apply_events(md, evs, p).unwrap().dom()),
        forall|n: u32| #[trigger] apply_events(md, evs, p).unwrap().dom().contains(n) ==> md.dom().contains(n)
            || exists|k: int| 0 <= k < evs.len() && event_written_name(#[trigger] evs[k]) == Some(n),
        forall|k: int| 0 <= k < evs.len() ==> (event_read_name(#[trigger] evs[k]) matches Some(n) ==> apply_events(md, evs, p).unwrap().dom().contains(n)),
    decreases evs.len(),
{
    if evs.len() > 0 {
        let pre = evs.drop_last();
        lemma_apply_events_dom(md, pre, p);
        let m = apply_events(md, pre, p).unwrap();
        lemma_apply_event_dom(m, evs.last(), p);
        let m2 = apply_events(md, evs, p).unwrap();
        assert forall|n: u32| #[trigger] m2.dom().contains(n) implies md.dom().contains(n)
            || exists|k: int| 0 <= k < evs.len() && event_written_name(#[trigger] evs[k]) == Some(n) by {
            if m.dom().contains(n) {
                if !md.dom().contains(n) {
                    let k = choose|k: int| 0 <= k < pre.len() && event_written_name(#[trigger] pre[k]) == Some(n);
                    assert(evs[k] == pre[k]);
                }
            } else {
                assert(evs[evs.len() - 1] == evs.last());
            }
        }
        assert forall|k: int| 0 <= k < evs.len() implies (event_read_name(#[trigger] evs[k]) matches Some(n) ==> m2.dom().contains(n)) by {
            if k < evs.len() - 1 {
                assert(evs[k] == pre[k]);
            }
        }
    }
}

/// Every name a pass of the final order reads is in the table it started
/// with, an outside resource, or written by that pass or an earlier one.
pub open spec fn reads_are_produced(md: Map<u32, MetadataModel>, order: Seq<PassInfo>, f: Format, c: SampleCount) -> bool {
    forall|i: int, n: ResourceName| 0 <= i < order.len() && #[trigger] pass_reads(order[i], f, c, n) ==>
        md.dom().contains(n) || exists|j: int| 0 <= j <= i && #[trigger] pass_writes_name(order[j], f, c, n)
}

proof fn lemma_reorder_from_laws(md: Map<u32, MetadataModel>, rem: Seq<PassInfo>, p: nat, f: Format, c: SampleCount)
    requires
        reorder_from(md, rem, p, f, c) is Ok,
    ensures
        reorder_from(md, rem, p, f, c).unwrap().0.to_multiset() == rem.to_multiset(),
        reads_are_produced(md, reorder_from(md, rem, p, f, c).unwrap().0, f, c),
    decreases rem.len(),
{
    if rem.len() > 0 {
        let i = next_pass_index(md, rem).unwrap();
        let md2 = apply_events(md, pass_events(rem[i], f, c), p as u32).unwrap();
        let rest = reorder_from(md2, rem.remove(i), p + 1, f, c).unwrap().0;
        lemma_reorder_from_laws(md2, rem.remove(i), p + 1, f, c);
        let order = reorder_from(md, rem, p, f, c).unwrap().0;
        assert(order == seq![rem[i]] + rest);
        assert(order =~= rest.insert(0, rem[i]));
        assert(rem.remove(i).to_multiset() == rem.to_multiset().remove(rem[i]));
        assert(order.to_multiset() =~= rem.to_multiset());
        lemma_apply_events_dom(md, pass_events(rem[i], f, c), p as u32);
        assert forall|k: int, n: ResourceName| 0 <= k < order.len() && #[trigger] pass_reads(order[k], f, c, n) implies
            md.dom().contains(n) || exists|j: int| 0 <= j <= k && #[trigger] pass_writes_name(order[j], f, c, n) by {
            let evs = pass_events(rem[i], f, c);
            if k == 0 {
                let q = choose|q: int| 0 <= q < pass_events(order[0], f, c).len() && event_read_name(#[trigger] pass_events(order[0], f, c)[q]) == Some(n);
                assert(md2.dom().contains(n));
                if !md.dom().contains(n) {
                    let q2 = choose|q2: int| 0 <= q2 < evs.len() && event_written_name(#[trigger] evs[q2]) == Some(n);
                    assert(pass_writes_name(order[0], f, c, n));
                }
            } else {
                assert(order[k] == rest[k - 1]);
                assert(pass_reads(rest[k - 1], f, c, n));
                if !md2.dom().contains(n) {
                    let j = choose|j: int| 0 <= j <= k - 1 && #[trigger] pass_writes_name(rest[j], f, c, n);
                    assert(order[j + 1] == rest[j]);
                    assert(pass_writes_name(order[j + 1], f, c, n));
                } else if !md.dom().contains(n) {
                    let q2 = choose|q2: int| 0 <= q2 < evs.len() && event_written_name(#[trigger] evs[q2]) == Some(n);
                    assert(pass_writes_name(order[0], f, c, n));
                }
            }
        }
    } else {
        assert(reorder_from(md, rem, p, f, c).unwrap().0 =~= rem);
    }
}

proof fn lemma_apply_externals_dom(md: Map<u32, MetadataModel>, exts: Seq<ExternalOutput>)
    ensures
        forall|n: u32| #[trigger] apply_externals(md, exts).dom().contains(n) ==> md.dom().contains(n) || is_external(exts, n),
    decreases exts.len(),
{
    if exts.len() > 0 {
        lemma_apply_externals_dom(md, exts.drop_last());
        let m = apply_externals(md, exts.drop_last());
        assert forall|n: u32| #[trigger] apply_externals(md, exts).dom().contains(n) implies md.dom().contains(n) || is_external(exts, n) by {
            if m.dom().contains(n) {
                if !md.dom().contains(n) {
                    let k = choose|k: int| 0 <= k < exts.drop_last().len() && (#[trigger] exts.drop_last()[k]).spec_name() == n;
                    assert(exts[k] == exts.drop_last()[k]);
                }
            } else {
                assert(exts[exts.len() - 1] == exts.last());
            }
        }
    }
}

/// Compiling a render graph neither loses nor duplicates a pass: the order is
/// a permutation of the passes.
pub proof fn law_reorder_is_permutation(md: Map<u32, MetadataModel>, passes: Seq<PassInfo>, exts: Seq<ExternalOutput>, f: Format, c: SampleCount)
    requires
        reorder_spec(md, passes, exts, f, c) is Ok,
    ensures
        reorder_spec(md, passes, exts, f, c).unwrap().0.to_multiset() == passes.to_multiset(),
{
    let m = apply_externals(md, exts);
    lemma_reorder_from_laws(m, passes, 0, f, c);
}

/// In a compiled render graph every resource a pass reads (through an input
/// of either frame or a depth stencil input) is an outside resource, was in
/// the table before, or is written by that pass or one that runs before it.
pub proof fn law_reads_follow_writes(md: Map<u32, MetadataModel>, passes: Seq<PassInfo>, exts: Seq<ExternalOutput>, f: Format, c: SampleCount)
    requires
        reorder_spec(md, passes, exts, f, c) is Ok,
    ensures
        ({
            let order = reorder_spec(md, passes, exts, f, c).unwrap().0;
            forall|i: int, n: ResourceName| 0 <= i < order.len() && #[trigger] pass_reads(order[i], f, c, n) ==>
                md.dom().contains(n) || is_external(exts, n) || exists|j: int| 0 <= j <= i && #[trigger] pass_writes_name(order[j], f, c, n)
        }),
{
    let m = apply_externals(md, exts);
    lemma_reorder_from_laws(m, passes, 0, f, c);
    lemma_apply_externals_dom(md, exts);
}

} // verus!
