//! The barrier a pass needs before it uses a resource: from the access the
//! resource was last left in to the access the pass records for it.
use vstd::prelude::*;
use crate::table::{AssocTable, has_key, seq_to_map, lemma_take_restore};
use crate::graph_info::ResourceName;
use crate::graph_resources::{
    MetadataModel, HistoryModel, ResourceMetadata, HistoryResourceMetadata, ResourceTable,
    ResourceAccess, RenderGraphError, table_wf, table_model, lemma_table_replace,
};

verus! {

/// A barrier of a pass, in the usages of the render graph.
#[derive(Clone, Copy, PartialEq, Eq, Structural, Debug)]
pub enum VkBarrierTemplate {
    Image {
        name: ResourceName,
        is_history: bool,
        new_usage: u32,
        old_usage: u32,
        new_primary_usage: u32,
        old_primary_usage: u32,
    },
    Buffer {
        name: ResourceName,
        is_history: bool,
        new_usage: u32,
        old_usage: u32,
        new_primary_usage: u32,
        old_primary_usage: u32,
    },
}

/// The value of key `k` in the pairs `s`, if it is a key.
pub open spec fn lookup<A>(s: Seq<(u32, A)>, k: u32) -> Option<A> {
    if has_key(s, k) {
        Some(seq_to_map(s)[k])
    } else {
        None
    }
}

/// The (usage, primary usage) of an access of the expected kind.
pub open spec fn access_usage(a: ResourceAccess, texture: bool) -> Option<(u32, u32)> {
    match a {
        ResourceAccess::Texture { usage, primary_usage } => if texture { Some((usage, primary_usage)) } else { None },
        ResourceAccess::Buffer { usage, primary_usage } => if texture { None } else { Some((usage, primary_usage)) },
    }
}

/// `start` with the usages of every access in `s` but that of pass `p` added,
/// or `None` if one of them is of the other kind.
pub open spec fn or_other_usages(s: Seq<(u32, ResourceAccess)>, p: u32, texture: bool, start: u32) -> Option<u32>
    decreases s.len(),
{
    if s.len() == 0 {
        Some(start)
    } else {
        match or_other_usages(s.drop_last(), p, texture, start) {
            None => None,
            Some(acc) => if s.last().0 == p {
                Some(acc)
            } else {
                match access_usage(s.last().1, texture) {
                    Some((u, _)) => Some(acc | u),
                    None => None,
                }
            },
        }
    }
}

/// The metadata with the access of the resource (or of its history) set to `a`.
pub open spec fn set_current_access(m: MetadataModel, is_history: bool, a: ResourceAccess) -> MetadataModel {
    if is_history {
        let h = m.history.unwrap();
        MetadataModel {
            history: Some(HistoryModel {
                pass_range: h.pass_range,
                pass_accesses: h.pass_accesses,
                current_access: a,
                initial_usage: h.initial_usage,
            }),
            ..m
        }
    } else {
        MetadataModel { current_access: a, ..m }
    }
}

pub open spec fn make_barrier(texture: bool, name: ResourceName, is_history: bool, old_usage: u32, new_usage: u32, old_primary_usage: u32, new_primary_usage: u32) -> VkBarrierTemplate {
    if texture {
        VkBarrierTemplate::Image { name, is_history, new_usage, old_usage, new_primary_usage, old_primary_usage }
    } else {
        VkBarrierTemplate::Buffer { name, is_history, new_usage, old_usage, new_primary_usage, old_primary_usage }
    }
}

/// The barrier before pass `p` uses the resource (a texture when `texture`),
/// and the metadata with the resource left in the pass's access. When the
/// resource was used before, the new usages include those of every other
/// pass that uses it.
pub open spec fn barrier_spec(m: MetadataModel, name: ResourceName, is_history: bool, p: u32, texture: bool) -> Result<(MetadataModel, VkBarrierTemplate), RenderGraphError> {
    let pass_access = if is_history {
        match m.history {
            Some(h) => lookup(h.pass_accesses, p),
            None => None,
        }
    } else {
        lookup(m.pass_accesses, p)
    };
    let current = if is_history { m.history.unwrap().current_access } else { m.current_access };
    match pass_access {
        None => Err(RenderGraphError::MissingPassAccess { name }),
        Some(pa) => match (access_usage(current, texture), access_usage(pa, texture)) {
            (Some((ou, opu)), Some((nu, npu))) => {
                let new_usage = if ou != 0 { or_other_usages(m.pass_accesses, p, texture, nu) } else { Some(nu) };
                match new_usage {
                    None => Err(RenderGraphError::AccessKindMismatch { name }),
                    Some(u) => Ok((set_current_access(m, is_history, pa), make_barrier(texture, name, is_history, ou, u, opu, npu))),
                }
            },
            _ => Err(RenderGraphError::AccessKindMismatch { name }),
        },
    }
}

/// The barrier before pass `p` uses `name`, with the table it leaves.
pub open spec fn table_barrier(md: Map<u32, MetadataModel>, name: ResourceName, is_history: bool, p: u32, texture: bool) -> Result<(Map<u32, MetadataModel>, VkBarrierTemplate), RenderGraphError> {
    if !md.dom().contains(name) {
        Err(RenderGraphError::MissingResource { name })
    } else {
        match barrier_spec(md[name], name, is_history, p, texture) {
            Ok((m2, b)) => Ok((md.insert(name, m2), b)),
            Err(e) => Err(e),
        }
    }
}

fn access_usage_exec(a: ResourceAccess, texture: bool) -> (r: Option<(u32, u32)>)
    ensures
        r == access_usage(a, texture),
{
    match a {
        ResourceAccess::Texture { usage, primary_usage } => if texture { Some((usage, primary_usage)) } else { None },
        ResourceAccess::Buffer { usage, primary_usage } => if texture { None } else { Some((usage, primary_usage)) },
    }
}

fn or_other_usages_exec(t: &AssocTable<ResourceAccess>, p: u32, texture: bool, start: u32) -> (r: Option<u32>)
    ensures
        r == or_other_usages(t.entries(), p, texture, start),
{
    let mut acc = start;
    let mut k: usize = 0;
    while k < t.len()
        invariant
            k <= t.entries().len(),
            or_other_usages(t.entries().take(k as int), p, texture, start) == Some(acc),
        decreases t.entries().len() - k,
    {
        proof {
            assert(t.entries().take(k as int + 1).drop_last() =~= t.entries().take(k as int));
        }
        let e = t.entry(k);
        if e.0 != p {
            match access_usage_exec(e.1, texture) {
                Some((u, _)) => {
                    acc = acc | u;
                },
                None => {
                    proof {
                        lemma_or_other_none(t.entries(), k as int + 1, p, texture, start);
                    }
                    return None;
                },
            }
        }
        k += 1;
    }
    proof {
        assert(t.entries().take(t.entries().len() as int) =~= t.entries());
    }
    Some(acc)
}

proof fn lemma_or_other_none(s: Seq<(u32, ResourceAccess)>, n: int, p: u32, texture: bool, start: u32)
    requires
        0 <= n <= s.len(),
        or_other_usages(s.take(n), p, texture, start) is None,
    ensures
        or_other_usages(s, p, texture, start) is None,
    decreases s.len() - n,
{
    if n < s.len() {
        assert(s.take(n + 1).drop_last() =~= s.take(n));
        lemma_or_other_none(s, n + 1, p, texture, start);
    } else {
        assert(s.take(n) =~= s);
    }
}

fn barrier_exec(m: ResourceMetadata, name: ResourceName, is_history: bool, p: u32, texture: bool) -> (r: Result<(ResourceMetadata, VkBarrierTemplate), RenderGraphError>)
    requires
        m.wf(),
    ensures
        match barrier_spec(m.model(), name, is_history, p, texture) {
            Ok((m2, b)) => r matches Ok((em, eb)) && em.wf() && em.model() == m2 && eb == b,
            Err(e) => r is Err && r->Err_0 == e,
        },
{
    let ResourceMetadata { template, pass_range, history, pass_accesses, current_access } = m;
    let ghost mm = m.model();
    if is_history {
        match history {
            None => Err(RenderGraphError::MissingPassAccess { name }),
            Some(h) => {
                let HistoryResourceMetadata { pass_range: h_range, pass_accesses: h_accesses, current_access: h_current, initial_usage } = h;
                let pa = match h_accesses.get(p) {
                    Some(a) => *a,
                    None => {
                        proof {
                            assert(!has_key(h_accesses.entries(), p)) by {
                                crate::table::lemma_seq_to_map(h_accesses.entries());
                            }
                        }
                        return Err(RenderGraphError::MissingPassAccess { name });
                    },
                };
                proof {
                    crate::table::lemma_seq_to_map(h_accesses.entries());
                    assert(lookup(h_accesses.entries(), p) == Some(pa));
                }
                let (ou, opu) = match access_usage_exec(h_current, texture) {
                    Some(x) => x,
                    None => return Err(RenderGraphError::AccessKindMismatch { name }),
                };
                let (nu, npu) = match access_usage_exec(pa, texture) {
                    Some(x) => x,
                    None => return Err(RenderGraphError::AccessKindMismatch { name }),
                };
                let new_usage = if ou != 0 {
                    match or_other_usages_exec(&pass_accesses, p, texture, nu) {
                        Some(u) => u,
                        None => return Err(RenderGraphError::AccessKindMismatch { name }),
                    }
                } else {
                    nu
                };
                let b = if texture {
                    VkBarrierTemplate::Image { name, is_history, new_usage, old_usage: ou, new_primary_usage: npu, old_primary_usage: opu }
                } else {
                    VkBarrierTemplate::Buffer { name, is_history, new_usage, old_usage: ou, new_primary_usage: npu, old_primary_usage: opu }
                };
                let h2 = HistoryResourceMetadata { pass_range: h_range, pass_accesses: h_accesses, current_access: pa, initial_usage };
                Ok((ResourceMetadata { template, pass_range, history: Some(h2), pass_accesses, current_access }, b))
            },
        }
    } else {
        let pa = match pass_accesses.get(p) {
            Some(a) => *a,
            None => {
                proof {
                    assert(!has_key(pass_accesses.entries(), p)) by {
                        crate::table::lemma_seq_to_map(pass_accesses.entries());
                    }
                }
                return Err(RenderGraphError::MissingPassAccess { name });
            },
        };
        proof {
            crate::table::lemma_seq_to_map(pass_accesses.entries());
            assert(lookup(pass_accesses.entries(), p) == Some(pa));
        }
        let (ou, opu) = match access_usage_exec(current_access, texture) {
            Some(x) => x,
            None => return Err(RenderGraphError::AccessKindMismatch { name }),
        };
        let (nu, npu) = match access_usage_exec(pa, texture) {
            Some(x) => x,
            None => return Err(RenderGraphError::AccessKindMismatch { name }),
        };
        let new_usage = if ou != 0 {
            match or_other_usages_exec(&pass_accesses, p, texture, nu) {
                Some(u) => u,
                None => return Err(RenderGraphError::AccessKindMismatch { name }),
            }
        } else {
            nu
        };
        let b = if texture {
            VkBarrierTemplate::Image { name, is_history, new_usage, old_usage: ou, new_primary_usage: npu, old_primary_usage: opu }
        } else {
            VkBarrierTemplate::Buffer { name, is_history, new_usage, old_usage: ou, new_primary_usage: npu, old_primary_usage: opu }
        };
        Ok((ResourceMetadata { template, pass_range, history, pass_accesses, current_access: pa }, b))
    }
}

/// Builds the barrier before pass `p` uses `name` and leaves the resource
/// (or its history) in the pass's access.
pub fn build_barrier(table: &mut ResourceTable, name: ResourceName, is_history: bool, p: u32, texture: bool) -> (r: Result<VkBarrierTemplate, RenderGraphError>)
    requires
        table_wf(*old(table)),
    ensures
        match table_barrier(table_model(*old(table)), name, is_history, p, texture) {
            Ok((md2, b)) => r == Ok::<VkBarrierTemplate, RenderGraphError>(b) && table_wf(*final(table)) && table_model(*final(table)) == md2,
            Err(e) => r == Err::<VkBarrierTemplate, RenderGraphError>(e),
        },
{
    let ghost t0 = *table;
    match table.take(name) {
        None => Err(RenderGraphError::MissingResource { name }),
        Some((i, m)) => {
            match barrier_exec(m, name, is_history, p, texture) {
                Ok((m2, b)) => {
                    proof {
                        lemma_take_restore(t0.entries(), i as int, name, m2);
                    }
                    table.restore(i, name, m2);
                    proof {
                        lemma_table_replace(t0, *table, i as int, name, m2);
                    }
                    Ok(b)
                },
                Err(e) => Err(e),
            }
        },
    }
}

/// Builds the barrier before pass `p` uses the texture `name`.
pub fn build_texture_barrier(table: &mut ResourceTable, name: ResourceName, is_history: bool, p: u32) -> (r: Result<VkBarrierTemplate, RenderGraphError>)
    requires
        table_wf(*old(table)),
    ensures
        match table_barrier(table_model(*old(table)), name, is_history, p, true) {
            Ok((md2, b)) => r == Ok::<VkBarrierTemplate, RenderGraphError>(b) && table_wf(*final(table)) && table_model(*final(table)) == md2,
            Err(e) => r == Err::<VkBarrierTemplate, RenderGraphError>(e),
        },
{
    build_barrier(table, name, is_history, p, true)
}

/// Builds the barrier before pass `p` uses the buffer `name`.
pub fn build_buffer_barrier(table: &mut ResourceTable, name: ResourceName, is_history: bool, p: u32) -> (r: Result<VkBarrierTemplate, RenderGraphError>)
    requires
        table_wf(*old(table)),
    ensures
        match table_barrier(table_model(*old(table)), name, is_history, p, false) {
            Ok((md2, b)) => r == Ok::<VkBarrierTemplate, RenderGraphError>(b) && table_wf(*final(table)) && table_model(*final(table)) == md2,
            Err(e) => r == Err::<VkBarrierTemplate, RenderGraphError>(e),
        },
{
    build_barrier(table, name, is_history, p, false)
}

/// Every recorded access is of the given kind, so usages can be gathered.
proof fn lemma_or_other_some(s: Seq<(u32, ResourceAccess)>, p: u32, texture: bool, start: u32)
    requires
        forall|k: int| 0 <= k < s.len() ==> (#[trigger] access_usage(s[k].1, texture)) is Some,
    ensures
        or_other_usages(s, p, texture, start) is Some,
    decreases s.len(),
{
    if s.len() > 0 {
        assert forall|k: int| 0 <= k < s.drop_last().len() implies (#[trigger] access_usage(s.drop_last()[k].1, texture)) is Some by {
            assert(s.drop_last()[k] == s[k]);
        }
        lemma_or_other_some(s.drop_last(), p, texture, start);
        assert(access_usage(s[s.len() - 1].1, texture) is Some);
    }
}

/// Law: a texture's barrier before pass `j` starts from the access that the
/// barrier before pass `i` left it in, that of pass `i`: barriers chain, each
/// starting where the one before ended.
pub proof fn law_barriers_chain(md: Map<u32, MetadataModel>, name: ResourceName, i: u32, j: u32, usage: u32, primary_usage: u32)
    requires
        md.dom().contains(name),
        md[name].current_access is Texture,
        forall|k: int| 0 <= k < md[name].pass_accesses.len() ==> (#[trigger] md[name].pass_accesses[k].1) is Texture,
        lookup(md[name].pass_accesses, i) == Some(ResourceAccess::Texture { usage, primary_usage }),
        lookup(md[name].pass_accesses, j) matches Some(ResourceAccess::Texture { .. }),
    ensures
        table_barrier(md, name, false, i, true) is Ok,
        ({
            let md1 = table_barrier(md, name, false, i, true).unwrap().0;
            let second = table_barrier(md1, name, false, j, true);
            &&& second is Ok
            &&& second.unwrap().1 matches VkBarrierTemplate::Image { old_usage, old_primary_usage, .. }
            &&& old_usage == usage
            &&& old_primary_usage == primary_usage
        }),
{
    let m = md[name];
    assert forall|k: int| 0 <= k < m.pass_accesses.len() implies (#[trigger] access_usage(m.pass_accesses[k].1, true)) is Some by {
        assert(m.pass_accesses[k].1 is Texture);
    }
    lemma_or_other_some(m.pass_accesses, i, true, usage);
    lemma_or_other_some(m.pass_accesses, j, true, lookup(m.pass_accesses, j).unwrap()->Texture_usage);
    let m1 = set_current_access(m, false, ResourceAccess::Texture { usage, primary_usage });
    assert(m1.pass_accesses == m.pass_accesses);
    let md1 = md.insert(name, m1);
    assert(table_barrier(md, name, false, i, true) is Ok);
    assert(table_barrier(md, name, false, i, true).unwrap().0 == md1);
    assert(md1[name] == m1);
    assert(md1.dom().contains(name));
    assert(lookup(m1.pass_accesses, j) == lookup(m.pass_accesses, j));
    assert(access_usage(m1.current_access, true) == Some((usage, primary_usage)));
    let pj = lookup(m.pass_accesses, j).unwrap();
    assert(access_usage(pj, true) is Some);
    let (nu, npu) = access_usage(pj, true).unwrap();
    assert(usage != 0 ==> or_other_usages(m1.pass_accesses, j, true, nu) is Some);
    assert(barrier_spec(m1, name, false, j, true) is Ok);
}

} // verus!
