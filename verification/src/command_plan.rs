//! What a command buffer records for a few of its commands, as values: how the
//! finished descriptor sets are grouped into bind calls, how a storage buffer
//! is cleared, and which region a blit copies.
use vstd::prelude::*;
use crate::graph_info::Format;
use crate::vk_convert::{aspect_mask_from_format, vk_aspect_mask};
use crate::graph_info::SampleCount;
use crate::graph_passes::{AttachmentInfo, LoadOp, StoreOp};
use crate::vk_values as vk;
use crate::vk_convert::{format_to_vk, vk_format, samples_to_vk, vk_sample_count};
use crate::descriptor::VkConstantRange;

verus! {

/// The set index of the bindless texture set, right after the three sets of
/// the binding frequencies.
pub const BINDLESS_SET_INDEX: u32 = 3u32;

/// A descriptor set that was finished for one slot, with the offsets of its
/// dynamic bindings.
pub struct SetBinding {
    pub set: u64,
    pub dynamic_offsets: Vec<u64>,
}

/// One call that binds consecutive descriptor sets, starting at `first_set`.
pub struct DescriptorBindCall {
    pub first_set: u32,
    pub sets: Vec<u64>,
    pub offsets: Vec<u32>,
}

/// A bind call as values.
pub struct BindCallModel {
    pub first_set: u32,
    pub sets: Seq<u64>,
    pub offsets: Seq<u32>,
}

impl DescriptorBindCall {
    pub open spec fn model(&self) -> BindCallModel {
        BindCallModel { first_set: self.first_set, sets: self.sets@, offsets: self.offsets@ }
    }
}

pub open spec fn calls_model(calls: Seq<DescriptorBindCall>) -> Seq<BindCallModel> {
    calls.map_values(|c: DescriptorBindCall| c.model())
}

/// Dynamic offsets as the 32-bit values a bind call takes (the low 32 bits).
pub open spec fn truncated_offsets(offsets: Seq<u64>) -> Seq<u32> {
    offsets.map_values(|o: u64| o as u32)
}

/// The state of the grouping after some slots: the calls made so far, and the
/// run of sets that waits to be bound from `base` on.
pub struct GroupState {
    pub calls: Seq<BindCallModel>,
    pub base: u32,
    pub sets: Seq<u64>,
    pub offsets: Seq<u32>,
}

/// Walks the first `n` slots: a finished set joins the waiting run; an empty
/// slot binds the waiting run, if there is one, and starts a new run after it.
pub open spec fn group_upto(slots: Seq<Option<SetBinding>>, n: nat) -> GroupState
    decreases n,
{
    if n == 0 {
        GroupState { calls: Seq::empty(), base: 0, sets: Seq::empty(), offsets: Seq::empty() }
    } else {
        let s = group_upto(slots, (n - 1) as nat);
        match slots[n - 1] {
            Option::None => GroupState {
                calls: if s.sets.len() > 0 {
                    s.calls.push(BindCallModel { first_set: s.base, sets: s.sets, offsets: s.offsets })
                } else {
                    s.calls
                },
                base: n as u32,
                sets: Seq::empty(),
                offsets: Seq::empty(),
            },
            Option::Some(b) => GroupState {
                calls: s.calls,
                base: s.base,
                sets: s.sets.push(b.set),
                offsets: s.offsets + truncated_offsets(b.dynamic_offsets@),
            },
        }
    }
}

/// The bind calls for the finished slots. After the walk, a waiting run that
/// does not end right before the bindless set is bound on its own; the
/// bindless set, when the pipeline uses it, is then bound together with what
/// still waits.
pub open spec fn bind_plan(slots: Seq<Option<SetBinding>>, bindless: Option<u64>) -> Seq<BindCallModel> {
    let s = group_upto(slots, slots.len());
    let flush = s.sets.len() > 0 && s.base + s.sets.len() != BINDLESS_SET_INDEX;
    let calls = if flush {
        s.calls.push(BindCallModel { first_set: s.base, sets: s.sets, offsets: s.offsets })
    } else {
        s.calls
    };
    let base = if flush { BINDLESS_SET_INDEX } else { s.base };
    let waiting = if flush { Seq::<u64>::empty() } else { s.sets };
    let offsets = if flush { Seq::<u32>::empty() } else { s.offsets };
    let waiting2 = match bindless {
        Option::Some(h) => waiting.push(h),
        Option::None => waiting,
    };
    if waiting2.len() > 0 {
        calls.push(BindCallModel { first_set: base, sets: waiting2, offsets })
    } else {
        calls
    }
}

fn push_truncated(offsets: &mut Vec<u32>, dynamic_offsets: &Vec<u64>)
    ensures
        final(offsets)@ == old(offsets)@ + truncated_offsets(dynamic_offsets@),
{
    let n = dynamic_offsets.len();
    let mut j: usize = 0;
    while j < n
        invariant
            n == dynamic_offsets.len(),
            j <= n,
            offsets@ == old(offsets)@ + truncated_offsets(dynamic_offsets@.take(j as int)),
        decreases n - j,
    {
        assert(dynamic_offsets@.take(j as int + 1) =~= dynamic_offsets@.take(j as int).push(
            dynamic_offsets@[j as int],
        ));
        offsets.push(dynamic_offsets[j] as u32);
        proof {
            let t = dynamic_offsets@.take(j as int);
            assert(truncated_offsets(t.push(dynamic_offsets@[j as int])) =~= truncated_offsets(t).push(
                dynamic_offsets@[j as int] as u32,
            ));
            assert(offsets@ =~= old(offsets)@ + truncated_offsets(dynamic_offsets@.take(j as int + 1)));
        }
        j = j + 1;
    }
    assert(dynamic_offsets@.take(n as int) =~= dynamic_offsets@);
}

/// The descriptor set bind calls that finish the binding of a draw or dispatch.
/// `slots` holds, per set index, the set that was finished for it, if any;
/// `bindless` is the bindless texture set when the pipeline uses it. A run of
/// consecutive finished sets is bound with one call; the bindless set joins
/// the last run when that run ends right before it.
pub fn finish_binding(slots: &Vec<Option<SetBinding>>, bindless: Option<u64>) -> (r: Vec<DescriptorBindCall>)
    requires
        slots.len() < u32::MAX,
    ensures
        calls_model(r@) == bind_plan(slots@, bindless),
{
    let n = slots.len();
    let mut calls: Vec<DescriptorBindCall> = Vec::new();
    let mut base: u32 = 0;
    let mut waiting: Vec<u64> = Vec::new();
    let mut offsets: Vec<u32> = Vec::new();
    let mut i: usize = 0;
    while i < n
        invariant
            n == slots.len(),
            n < u32::MAX,
            i <= n,
            base as int + waiting.len() == i,
            calls_model(calls@) == group_upto(slots@, i as nat).calls,
            base == group_upto(slots@, i as nat).base,
            waiting@ == group_upto(slots@, i as nat).sets,
            offsets@ == group_upto(slots@, i as nat).offsets,
        decreases n - i,
    {
        let ghost prev_calls = calls@;
        match &slots[i] {
            Option::None => {
                if waiting.len() > 0 {
                    let call = DescriptorBindCall { first_set: base, sets: waiting, offsets };
                    calls.push(call);
                    proof {
                        assert(calls_model(calls@) =~= calls_model(prev_calls).push(call.model()));
                    }
                }
                base = i as u32 + 1;
                waiting = Vec::new();
                offsets = Vec::new();
            },
            Option::Some(b) => {
                waiting.push(b.set);
                push_truncated(&mut offsets, &b.dynamic_offsets);
            },
        }
        i = i + 1;
    }
    let mut base2 = base;
    let ghost s = group_upto(slots@, n as nat);
    if waiting.len() > 0 && base as usize + waiting.len() != BINDLESS_SET_INDEX as usize {
        let ghost prev_calls = calls@;
        let call = DescriptorBindCall { first_set: base, sets: waiting, offsets };
        calls.push(call);
        proof {
            assert(calls_model(calls@) =~= calls_model(prev_calls).push(call.model()));
        }
        waiting = Vec::new();
        offsets = Vec::new();
        base2 = BINDLESS_SET_INDEX;
    }
    match bindless {
        Option::Some(h) => {
            waiting.push(h);
        },
        Option::None => {},
    }
    if waiting.len() > 0 {
        let ghost prev_calls = calls@;
        let call = DescriptorBindCall { first_set: base2, sets: waiting, offsets };
        calls.push(call);
        proof {
            assert(calls_model(calls@) =~= calls_model(prev_calls).push(call.model()));
        }
    }
    proof {
        assert(slots@.len() == n as nat);
    }
    calls
}

/// The length a storage buffer clear covers, in 32-bit words: the given one,
/// or, for `None`, all of the buffer from `offset` on.
pub open spec fn clear_length_in_u32s(buffer_length: usize, offset: usize, length_in_u32s: Option<usize>) -> int {
    match length_in_u32s {
        Option::Some(l) => l as int,
        Option::None => (buffer_length - offset) / 4,
    }
}

/// What clearing a storage buffer records: the binding of the cleared range,
/// the push constants of the clearing shader (byte length and value), the
/// dynamic offset of the binding, and the number of workgroups of 64 words.
pub struct ClearBufferPlan {
    pub binding_offset: usize,
    pub binding_length: usize,
    pub push_length: u32,
    pub push_value: u32,
    pub dynamic_offset: u32,
    pub group_count_x: u32,
}

/// Plans the clear of `length_in_u32s` words (`None`: the rest of the buffer)
/// of a storage buffer slice from `offset` on, to `value`. `buffer_offset` is
/// where the slice starts in its Vulkan buffer.
pub fn clear_storage_buffer_plan(
    buffer_length: usize,
    buffer_offset: usize,
    offset: usize,
    length_in_u32s: Option<usize>,
    value: u32,
) -> (r: ClearBufferPlan)
    requires
        offset <= buffer_length,
        length_in_u32s is None ==> (buffer_length - offset) % 4 == 0,
        length_in_u32s is Some ==> length_in_u32s->0 * 4 <= buffer_length - offset,
        buffer_offset + offset <= usize::MAX,
        (clear_length_in_u32s(buffer_length, offset, length_in_u32s) as u32) + 63 <= u32::MAX,
    ensures
        r.binding_offset == offset,
        r.binding_length == clear_length_in_u32s(buffer_length, offset, length_in_u32s) * 4,
        r.push_length == (clear_length_in_u32s(buffer_length, offset, length_in_u32s) * 4) as u32,
        r.push_value == value,
        r.dynamic_offset == (buffer_offset + offset) as u32,
        r.group_count_x == ((clear_length_in_u32s(buffer_length, offset, length_in_u32s) as u32) + 63) / 64,
{
    let actual: usize = match length_in_u32s {
        Option::Some(l) => l,
        Option::None => (buffer_length - offset) / 4,
    };
    let length_in_bytes: usize = actual * 4;
    let words: u32 = actual as u32;
    ClearBufferPlan {
        binding_offset: offset,
        binding_length: length_in_bytes,
        push_length: length_in_bytes as u32,
        push_value: value,
        dynamic_offset: (buffer_offset + offset) as u32,
        group_count_x: (words + 63) / 64,
    }
}

/// How a storage texture is cleared: the one mip level and layer it covers
/// with the aspects of its format, and whether it takes a depth stencil clear
/// (depth from the first value, stencil from the second) or a color clear
/// with all four values.
#[derive(Clone, Copy, PartialEq, Eq, Structural, Debug)]
pub struct ClearTexturePlan {
    pub aspect_mask: u32,
    pub base_mip_level: u32,
    pub level_count: u32,
    pub base_array_layer: u32,
    pub layer_count: u32,
    pub depth_stencil: bool,
}

pub open spec fn clear_texture_plan_of(format: Format, array_layer: u32, mip_level: u32) -> ClearTexturePlan {
    ClearTexturePlan {
        aspect_mask: vk_aspect_mask(format),
        base_mip_level: mip_level,
        level_count: 1,
        base_array_layer: array_layer,
        layer_count: 1,
        depth_stencil: format.spec_is_depth() || format.spec_is_stencil(),
    }
}

/// Plans the clear of one mip level of one layer of a storage texture.
pub fn clear_texture_plan(format: Format, array_layer: u32, mip_level: u32) -> (r: ClearTexturePlan)
    ensures
        r == clear_texture_plan_of(format, array_layer, mip_level),
{
    ClearTexturePlan {
        aspect_mask: aspect_mask_from_format(format),
        base_mip_level: mip_level,
        level_count: 1,
        base_array_layer: array_layer,
        layer_count: 1,
        depth_stencil: format.is_depth() || format.is_stencil(),
    }
}

/// One side of a blit: a texture with its format and size, and the layer and
/// mip level that take part.
#[derive(Clone, Copy)]
pub struct BlitTexture {
    pub format: Format,
    pub width: u32,
    pub height: u32,
    pub depth: u32,
    pub array_layer: u32,
    pub mip_level: u32,
}

/// The subresource and far corner of one side of a blit region; the near
/// corner is the origin and one layer takes part.
pub struct BlitSide {
    pub aspect_mask: u32,
    pub mip_level: u32,
    pub base_array_layer: u32,
    pub layer_count: u32,
    pub max_x: i32,
    pub max_y: i32,
    pub max_z: i32,
}

pub open spec fn blit_side_of(t: BlitTexture) -> BlitSide {
    BlitSide {
        aspect_mask: vk_aspect_mask(t.format),
        mip_level: t.mip_level,
        base_array_layer: t.array_layer,
        layer_count: 1,
        max_x: t.width as i32,
        max_y: t.height as i32,
        max_z: t.depth as i32,
    }
}

fn blit_side(t: BlitTexture) -> (r: BlitSide)
    ensures
        r == blit_side_of(t),
{
    BlitSide {
        aspect_mask: aspect_mask_from_format(t.format),
        mip_level: t.mip_level,
        base_array_layer: t.array_layer,
        layer_count: 1,
        max_x: t.width as i32,
        max_y: t.height as i32,
        max_z: t.depth as i32,
    }
}

/// The region of a blit from the whole of one subresource to the whole of
/// another, each with the aspects of its format.
pub fn blit_region(src: BlitTexture, dst: BlitTexture) -> (r: (BlitSide, BlitSide))
    ensures
        r.0 == blit_side_of(src),
        r.1 == blit_side_of(dst),
{
    (blit_side(src), blit_side(dst))
}

/// Set `set` may stand at set index `index`: it is the set finished for that
/// slot, or the bindless set at the bindless index.
pub open spec fn set_belongs_at(slots: Seq<Option<SetBinding>>, bindless: Option<u64>, index: int, set: u64) -> bool {
    ||| (0 <= index < slots.len() && slots[index] is Some && slots[index]->0.set == set)
    ||| (index == BINDLESS_SET_INDEX && bindless == Some(set))
}

pub open spec fn calls_place_sets(slots: Seq<Option<SetBinding>>, bindless: Option<u64>, calls: Seq<BindCallModel>) -> bool {
    forall|c: int, k: int|
        0 <= c < calls.len() && 0 <= k < calls[c].sets.len() ==> set_belongs_at(
            slots,
            bindless,
            calls[c].first_set + k,
            #[trigger] calls[c].sets[k],
        )
}

pub open spec fn slot_holds(slots: Seq<Option<SetBinding>>, i: int, set: u64) -> bool {
    &&& 0 <= i < slots.len()
    &&& slots[i] is Some
    &&& slots[i]->0.set == set
}

proof fn lemma_group_places_sets(slots: Seq<Option<SetBinding>>, bindless: Option<u64>, n: nat)
    requires
        n <= slots.len(),
        slots.len() < u32::MAX,
    ensures
        calls_place_sets(slots, bindless, group_upto(slots, n).calls),
        group_upto(slots, n).base + group_upto(slots, n).sets.len() == n,
        forall|k: int| 0 <= k < group_upto(slots, n).sets.len() ==> slot_holds(
            slots,
            group_upto(slots, n).base + k,
            #[trigger] group_upto(slots, n).sets[k],
        ),
    decreases n,
{
    if n > 0 {
        lemma_group_places_sets(slots, bindless, (n - 1) as nat);
        let s = group_upto(slots, (n - 1) as nat);
        let t = group_upto(slots, n);
        match slots[n - 1] {
            Option::None => {
                assert(t.sets.len() == 0);
                if s.sets.len() > 0 {
                    let call = BindCallModel { first_set: s.base, sets: s.sets, offsets: s.offsets };
                    assert(t.calls == s.calls.push(call));
                    assert forall|c: int, k: int| 0 <= c < t.calls.len() && 0 <= k < t.calls[c].sets.len() implies set_belongs_at(
                        slots,
                        bindless,
                        t.calls[c].first_set + k,
                        #[trigger] t.calls[c].sets[k],
                    ) by {
                        if c < s.calls.len() {
                            assert(t.calls[c] == s.calls[c]);
                        } else {
                            assert(t.calls[c] == call);
                            assert(s.sets[k] == t.calls[c].sets[k]);
                        }
                    }
                }
            },
            Option::Some(b) => {
                assert(t.base == s.base);
                assert(t.sets == s.sets.push(b.set));
                assert forall|k: int| 0 <= k < t.sets.len() implies slot_holds(slots, t.base + k, #[trigger] t.sets[k]) by {
                    if k < s.sets.len() {
                        assert(t.sets[k] == s.sets[k]);
                    } else {
                        assert(t.sets[k] == b.set);
                        assert(t.base + k == n - 1);
                        assert(slots[n - 1] == Option::Some(b));
                    }
                }
            },
        }
    }
}

/// Every set the bind calls bind stands at its own set index: a finished set
/// at the index of its slot, the bindless set at the bindless index. (The
/// slots are those of the three binding frequencies.)
pub proof fn law_bound_sets_are_at_their_index(slots: Seq<Option<SetBinding>>, bindless: Option<u64>)
    requires
        slots.len() == BINDLESS_SET_INDEX,
    ensures
        calls_place_sets(slots, bindless, bind_plan(slots, bindless)),
{
    let n = slots.len();
    lemma_group_places_sets(slots, bindless, n);
    let s = group_upto(slots, n);
    let calls = bind_plan(slots, bindless);
    let flush = s.sets.len() > 0 && s.base + s.sets.len() != BINDLESS_SET_INDEX;
    let calls1 = if flush {
        s.calls.push(BindCallModel { first_set: s.base, sets: s.sets, offsets: s.offsets })
    } else {
        s.calls
    };
    let base = if flush { BINDLESS_SET_INDEX } else { s.base };
    let waiting = if flush { Seq::<u64>::empty() } else { s.sets };
    let offsets = if flush { Seq::<u32>::empty() } else { s.offsets };
    let waiting2 = match bindless {
        Option::Some(h) => waiting.push(h),
        Option::None => waiting,
    };
    assert(calls_place_sets(slots, bindless, calls1)) by {
        if flush {
            assert forall|c: int, k: int| 0 <= c < calls1.len() && 0 <= k < calls1[c].sets.len() implies set_belongs_at(
                slots,
                bindless,
                calls1[c].first_set + k,
                #[trigger] calls1[c].sets[k],
            ) by {
                if c < s.calls.len() {
                    assert(calls1[c] == s.calls[c]);
                } else {
                    assert(calls1[c].sets[k] == s.sets[k]);
                }
            }
        }
    }
    if waiting2.len() > 0 {
        let last = BindCallModel { first_set: base, sets: waiting2, offsets };
        assert(calls == calls1.push(last));
        assert forall|c: int, k: int| 0 <= c < calls.len() && 0 <= k < calls[c].sets.len() implies set_belongs_at(
            slots,
            bindless,
            calls[c].first_set + k,
            #[trigger] calls[c].sets[k],
        ) by {
            if c < calls1.len() {
                assert(calls[c] == calls1[c]);
            } else {
                assert(calls[c] == last);
                if k < waiting.len() {
                    assert(waiting2[k] == waiting[k]);
                    assert(!flush);
                    assert(waiting[k] == s.sets[k]);
                } else {
                    assert(base + k == BINDLESS_SET_INDEX);
                }
            }
        }
    }
}


/// Some bind call binds `set` at set index `index`.
pub open spec fn set_is_bound(calls: Seq<BindCallModel>, index: int, set: u64) -> bool {
    exists|c: int, k: int|
        0 <= c < calls.len() && 0 <= k < calls[c].sets.len() && calls[c].first_set + k == index
            && #[trigger] calls[c].sets[k] == set
}

proof fn lemma_bound_stays(calls: Seq<BindCallModel>, extra: BindCallModel, index: int, set: u64)
    requires
        set_is_bound(calls, index, set),
    ensures
        set_is_bound(calls.push(extra), index, set),
{
    let (c, k) = choose|c: int, k: int|
        0 <= c < calls.len() && 0 <= k < calls[c].sets.len() && calls[c].first_set + k == index
            && #[trigger] calls[c].sets[k] == set;
    assert(calls.push(extra)[c] == calls[c]);
    assert(calls.push(extra)[c].sets[k] == set);
}

proof fn lemma_bound_by_last(calls: Seq<BindCallModel>, last: BindCallModel, k: int)
    requires
        0 <= k < last.sets.len(),
    ensures
        set_is_bound(calls.push(last), last.first_set + k, last.sets[k]),
{
    let c = calls.len() as int;
    assert(calls.push(last)[c] == last);
    assert(calls.push(last)[c].sets[k] == last.sets[k]);
}

pub open spec fn slot_waits_or_bound(slots: Seq<Option<SetBinding>>, s: GroupState, i: int) -> bool {
    ||| (s.base <= i && i - s.base < s.sets.len() && s.sets[i - s.base] == slots[i]->0.set)
    ||| set_is_bound(s.calls, i, slots[i]->0.set)
}

proof fn lemma_group_binds_all(slots: Seq<Option<SetBinding>>, n: nat)
    requires
        n <= slots.len(),
        slots.len() < u32::MAX,
    ensures
        forall|i: int| 0 <= i < n && #[trigger] slots[i] is Some ==> slot_waits_or_bound(slots, group_upto(slots, n), i),
    decreases n,
{
    if n > 0 {
        lemma_group_binds_all(slots, (n - 1) as nat);
        lemma_group_places_sets(slots, Option::None, (n - 1) as nat);
        let s = group_upto(slots, (n - 1) as nat);
        let t = group_upto(slots, n);
        assert forall|i: int| 0 <= i < n && #[trigger] slots[i] is Some implies slot_waits_or_bound(slots, t, i) by {
            match slots[n - 1] {
                Option::None => {
                    assert(i < n - 1);
                    let call = BindCallModel { first_set: s.base, sets: s.sets, offsets: s.offsets };
                    if set_is_bound(s.calls, i, slots[i]->0.set) {
                        if s.sets.len() > 0 {
                            lemma_bound_stays(s.calls, call, i, slots[i]->0.set);
                        }
                    } else {
                        assert(s.sets.len() > 0);
                        lemma_bound_by_last(s.calls, call, i - s.base);
                    }
                },
                Option::Some(b) => {
                    assert(t.sets == s.sets.push(b.set));
                    if i == n - 1 {
                        assert(t.sets[i - t.base] == b.set);
                    } else if !set_is_bound(s.calls, i, slots[i]->0.set) {
                        assert(t.sets[i - t.base] == s.sets[i - s.base]);
                    }
                },
            }
        }
    }
}

/// Every set finished for a slot is bound, and so is the bindless set when
/// the pipeline uses it. (The slots are those of the three binding
/// frequencies.)
pub proof fn law_finished_sets_are_bound(slots: Seq<Option<SetBinding>>, bindless: Option<u64>)
    requires
        slots.len() == BINDLESS_SET_INDEX,
    ensures
        forall|i: int| 0 <= i < slots.len() && #[trigger] slots[i] is Some ==> set_is_bound(
            bind_plan(slots, bindless),
            i,
            slots[i]->0.set,
        ),
        bindless is Some ==> set_is_bound(bind_plan(slots, bindless), BINDLESS_SET_INDEX as int, bindless->0),
{
    let n = slots.len();
    lemma_group_binds_all(slots, n);
    lemma_group_places_sets(slots, bindless, n);
    let s = group_upto(slots, n);
    let flush = s.sets.len() > 0 && s.base + s.sets.len() != BINDLESS_SET_INDEX;
    assert(!flush);
    let waiting2 = match bindless {
        Option::Some(h) => s.sets.push(h),
        Option::None => s.sets,
    };
    let last = BindCallModel { first_set: s.base, sets: waiting2, offsets: s.offsets };
    assert forall|i: int| 0 <= i < slots.len() && #[trigger] slots[i] is Some implies set_is_bound(
        bind_plan(slots, bindless),
        i,
        slots[i]->0.set,
    ) by {
        if set_is_bound(s.calls, i, slots[i]->0.set) {
            if waiting2.len() > 0 {
                lemma_bound_stays(s.calls, last, i, slots[i]->0.set);
            }
        } else {
            assert(waiting2[i - s.base] == s.sets[i - s.base]);
            lemma_bound_by_last(s.calls, last, i - s.base);
        }
    }
    if bindless is Some {
        assert(waiting2[s.sets.len() as int] == bindless->0);
        lemma_bound_by_last(s.calls, last, s.sets.len() as int);
    }
}

/// What a secondary command buffer inherits of the render pass it records
/// into: the formats of the render targets, the depth and stencil formats
/// (undefined where the depth stencil attachment has no such aspect or there
/// is none) and the sample count.
pub struct SecondaryInheritance {
    pub rt_formats: Vec<i32>,
    pub depth_format: i32,
    pub stencil_format: i32,
    pub sample_count: u32,
}

pub open spec fn inherited_depth_format(depth_stencil: Option<(Format, SampleCount)>, supports_d24: bool) -> i32 {
    match depth_stencil {
        Option::Some((f, _)) => if f.spec_is_depth() { vk_format(f, supports_d24) } else { vk::FORMAT_UNDEFINED },
        Option::None => vk::FORMAT_UNDEFINED,
    }
}

pub open spec fn inherited_stencil_format(depth_stencil: Option<(Format, SampleCount)>, supports_d24: bool) -> i32 {
    match depth_stencil {
        Option::Some((f, _)) => if f.spec_is_stencil() { vk_format(f, supports_d24) } else { vk::FORMAT_UNDEFINED },
        Option::None => vk::FORMAT_UNDEFINED,
    }
}

/// The samples of the first render target, else of the depth stencil
/// attachment.
pub open spec fn inherited_samples(render_targets: Seq<(Format, SampleCount)>, depth_stencil: Option<(Format, SampleCount)>) -> u32 {
    if render_targets.len() > 0 {
        vk_sample_count(render_targets[0].1)
    } else {
        match depth_stencil {
            Option::Some((_, c)) => vk_sample_count(c),
            Option::None => 0,
        }
    }
}

/// What the secondary command buffers of a render pass inherit, from its
/// render targets and its depth stencil attachment, each with format and
/// samples. Render targets never take the 24 bit depth fallback. A render
/// pass has at least one attachment.
pub fn secondary_inheritance(
    render_targets: &Vec<(Format, SampleCount)>,
    depth_stencil: Option<(Format, SampleCount)>,
    supports_d24: bool,
) -> (r: SecondaryInheritance)
    requires
        render_targets.len() > 0 || depth_stencil is Some,
    ensures
        r.rt_formats@ == render_targets@.map_values(|t: (Format, SampleCount)| vk_format(t.0, false)),
        r.depth_format == inherited_depth_format(depth_stencil, supports_d24),
        r.stencil_format == inherited_stencil_format(depth_stencil, supports_d24),
        r.sample_count == inherited_samples(render_targets@, depth_stencil),
{
    let n = render_targets.len();
    let mut rt_formats: Vec<i32> = Vec::new();
    let mut i: usize = 0;
    while i < n
        invariant
            n == render_targets.len(),
            i <= n,
            rt_formats@ == render_targets@.take(i as int).map_values(|t: (Format, SampleCount)| vk_format(t.0, false)),
        decreases n - i,
    {
        let (f, _) = render_targets[i];
        rt_formats.push(format_to_vk(f, false));
        assert(render_targets@.take(i as int + 1) =~= render_targets@.take(i as int).push(render_targets@[i as int]));
        assert(rt_formats@ =~= render_targets@.take(i as int + 1).map_values(|t: (Format, SampleCount)| vk_format(t.0, false)));
        i = i + 1;
    }
    assert(render_targets@.take(n as int) =~= render_targets@);
    let (depth_format, stencil_format) = match depth_stencil {
        Option::Some((f, _)) => {
            let vk_f = format_to_vk(f, supports_d24);
            (
                if f.is_depth() { vk_f } else { vk::FORMAT_UNDEFINED },
                if f.is_stencil() { vk_f } else { vk::FORMAT_UNDEFINED },
            )
        },
        Option::None => (vk::FORMAT_UNDEFINED, vk::FORMAT_UNDEFINED),
    };
    let sample_count = if n > 0 {
        samples_to_vk(render_targets[0].1)
    } else {
        match depth_stencil {
            Option::Some((_, s)) => samples_to_vk(s),
            Option::None => 0,
        }
    };
    SecondaryInheritance { rt_formats, depth_format, stencil_format, sample_count }
}

/// Where push constants of `data_size` bytes go in a push constant range: at
/// its offset, cut to its size.
pub fn push_constant_upload(range: VkConstantRange, data_size: usize) -> (r: (u32, usize))
    ensures
        r.0 == range.offset,
        r.1 == if data_size <= range.size { data_size as int } else { range.size as int },
{
    let len: usize = if data_size <= range.size as usize { data_size } else { range.size as usize };
    (range.offset, len)
}

/// The row length and image height, in texels, of buffer data copied into a
/// texture whose format has blocks of `block_width` by `block_height` texels
/// of `element_size` bytes: from the row pitch and the slice pitch in bytes,
/// zero for tightly packed data.
pub open spec fn copy_texel_pitches(row_pitch: u64, slice_pitch: u64, block_width: u32, block_height: u32, element_size: u32) -> (u32, u32) {
    let width: u32 = if row_pitch != 0 {
        (((row_pitch as u32) * block_width) as int / element_size as int) as u32
    } else {
        0
    };
    let height: u32 = if slice_pitch != 0 {
        ((((slice_pitch as u32) / width) * block_height) as int / element_size as int) as u32
    } else {
        0
    };
    (width, height)
}

/// Computes `copy_texel_pitches`. The products fit in 32 bits, the element
/// size is not zero, and a slice pitch comes with a row pitch of at least
/// one texel.
pub fn buffer_copy_texel_pitches(row_pitch: u64, slice_pitch: u64, block_width: u32, block_height: u32, element_size: u32) -> (r: (u32, u32))
    requires
        element_size > 0,
        (row_pitch as u32) * block_width <= u32::MAX,
        slice_pitch != 0 ==> copy_texel_pitches(row_pitch, slice_pitch, block_width, block_height, element_size).0 > 0,
        slice_pitch != 0 ==> ((slice_pitch as u32) / copy_texel_pitches(row_pitch, slice_pitch, block_width, block_height, element_size).0) * block_height <= u32::MAX,
    ensures
        r == copy_texel_pitches(row_pitch, slice_pitch, block_width, block_height, element_size),
{
    let width: u32 = if row_pitch != 0 { (row_pitch as u32) * block_width / element_size } else { 0 };
    let height: u32 = if slice_pitch != 0 { (slice_pitch as u32) / width * block_height / element_size } else { 0 };
    (width, height)
}

/// How the commands of a render pass are recorded: into the command buffer
/// itself, or into secondary command buffers.
#[derive(Clone, Copy, PartialEq, Eq, Structural, Debug)]
pub enum RenderpassRecordingMode {
    Commands,
    CommandBuffers,
}

/// An attachment a render pass is begun with: the format, samples and size of
/// its texture, and what happens to its contents.
#[derive(Clone, Copy)]
pub struct RenderPassAttachmentDesc {
    pub format: Format,
    pub samples: SampleCount,
    pub width: u32,
    pub height: u32,
    pub load_op: LoadOp,
    pub store_op: StoreOp,
}

/// The value an attachment is cleared to: depth 1 and stencil 0 for a depth or
/// stencil format, all channels 0 for a color format.
#[derive(Clone, Copy, PartialEq, Eq, Structural, Debug)]
pub enum ClearValueKind {
    DepthOneStencilZero,
    ColorZero,
}

/// What beginning a render pass records: the attachments of the render pass,
/// the clear value of each, the render area and how its contents are given.
pub struct RenderPassSetup {
    pub attachments: Vec<AttachmentInfo>,
    pub clear_values: Vec<ClearValueKind>,
    pub width: u32,
    pub height: u32,
    pub subpass_contents: i32,
}

pub open spec fn attachment_info_of(a: RenderPassAttachmentDesc) -> AttachmentInfo {
    AttachmentInfo {
        format: a.format,
        samples: a.samples,
        load_op: a.load_op,
        store_op: a.store_op,
        stencil_load_op: LoadOp::DontCare,
        stencil_store_op: StoreOp::DontCare,
    }
}

pub open spec fn clear_value_of(format: Format) -> ClearValueKind {
    if format.spec_is_depth() || format.spec_is_stencil() {
        ClearValueKind::DepthOneStencilZero
    } else {
        ClearValueKind::ColorZero
    }
}

/// The largest width among the first `n` attachments, 0 for none.
pub open spec fn max_width_upto(atts: Seq<RenderPassAttachmentDesc>, n: nat) -> u32
    decreases n,
{
    if n == 0 {
        0
    } else {
        let m = max_width_upto(atts, (n - 1) as nat);
        if atts[n - 1].width > m { atts[n - 1].width } else { m }
    }
}

/// The largest height among the first `n` attachments, 0 for none.
pub open spec fn max_height_upto(atts: Seq<RenderPassAttachmentDesc>, n: nat) -> u32
    decreases n,
{
    if n == 0 {
        0
    } else {
        let m = max_height_upto(atts, (n - 1) as nat);
        if atts[n - 1].height > m { atts[n - 1].height } else { m }
    }
}

pub open spec fn subpass_contents_of(mode: RenderpassRecordingMode) -> i32 {
    match mode {
        RenderpassRecordingMode::Commands => vk::SUBPASS_CONTENTS_INLINE,
        RenderpassRecordingMode::CommandBuffers => vk::SUBPASS_CONTENTS_SECONDARY_COMMAND_BUFFERS,
    }
}

/// What beginning a render pass with these attachments records: one
/// attachment each (the stencil contents are neither loaded nor stored), its
/// clear value, the largest width and height as the render area, and inline
/// or secondary contents after the recording mode.
pub fn render_pass_setup(attachments: &Vec<RenderPassAttachmentDesc>, mode: RenderpassRecordingMode) -> (r: RenderPassSetup)
    ensures
        r.attachments@.len() == attachments@.len(),
        r.clear_values@.len() == attachments@.len(),
        forall|i: int| 0 <= i < attachments@.len() ==> #[trigger] r.attachments@[i] == attachment_info_of(attachments@[i]),
        forall|i: int| 0 <= i < attachments@.len() ==> #[trigger] r.clear_values@[i] == clear_value_of(attachments@[i].format),
        r.width == max_width_upto(attachments@, attachments@.len()),
        r.height == max_height_upto(attachments@, attachments@.len()),
        r.subpass_contents == subpass_contents_of(mode),
{
    let n = attachments.len();
    let mut infos: Vec<AttachmentInfo> = Vec::new();
    let mut clears: Vec<ClearValueKind> = Vec::new();
    let mut width: u32 = 0;
    let mut height: u32 = 0;
    let mut i: usize = 0;
    while i < n
        invariant
            n == attachments.len(),
            i <= n,
            infos@.len() == i,
            clears@.len() == i,
            forall|k: int| 0 <= k < i ==> #[trigger] infos@[k] == attachment_info_of(attachments@[k]),
            forall|k: int| 0 <= k < i ==> #[trigger] clears@[k] == clear_value_of(attachments@[k].format),
            width == max_width_upto(attachments@, i as nat),
            height == max_height_upto(attachments@, i as nat),
        decreases n - i,
    {
        let a = attachments[i];
        infos.push(AttachmentInfo {
            format: a.format,
            samples: a.samples,
            load_op: a.load_op,
            store_op: a.store_op,
            stencil_load_op: LoadOp::DontCare,
            stencil_store_op: StoreOp::DontCare,
        });
        if a.width > width {
            width = a.width;
        }
        if a.height > height {
            height = a.height;
        }
        clears.push(
            if a.format.is_depth() || a.format.is_stencil() {
                ClearValueKind::DepthOneStencilZero
            } else {
                ClearValueKind::ColorZero
            },
        );
        i = i + 1;
    }
    let subpass_contents = match mode {
        RenderpassRecordingMode::Commands => vk::SUBPASS_CONTENTS_INLINE,
        RenderpassRecordingMode::CommandBuffers => vk::SUBPASS_CONTENTS_SECONDARY_COMMAND_BUFFERS,
    };
    RenderPassSetup { attachments: infos, clear_values: clears, width, height, subpass_contents }
}

} // verus!
