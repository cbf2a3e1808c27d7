//! How a batch of queue submissions is laid out for one submit call: the
//! command buffers of all submissions in one list, their semaphores in another,
//! and for each submission the ranges of both lists that are its own.
use vstd::prelude::*;
use crate::vk_convert::{barrier_sync_to_stage, vk_barrier_stages};
use crate::vk_values as vk;
use crate::command_state::{CommandBufferLifecycle, VkCommandBufferState, after_submit};

verus! {

/// A timeline fence with the value to wait for or to signal, and the
/// synchronisation scope of the work before it.
#[derive(Clone, Copy)]
pub struct FenceValue {
    pub fence: u64,
    pub value: u64,
    pub sync_before: u32,
}

/// One submission: its command buffers, the fences it waits for and signals,
/// and the swapchain semaphores it waits for (acquire) and signals (release).
pub struct SubmissionDesc {
    pub command_buffers: Vec<u64>,
    pub wait_fences: Vec<FenceValue>,
    pub signal_fences: Vec<FenceValue>,
    pub acquire_semaphore: Option<u64>,
    pub release_semaphore: Option<u64>,
}

/// A semaphore as the submit call takes it.
#[derive(Clone, Copy)]
pub struct SemaphoreSubmit {
    pub semaphore: u64,
    pub value: u64,
    pub stage_mask: u64,
}

/// The parts of the two lists that belong to one submission.
#[derive(Clone, Copy)]
pub struct SubmitRanges {
    pub command_buffer_start: usize,
    pub command_buffer_count: usize,
    pub wait_start: usize,
    pub wait_count: usize,
    pub signal_start: usize,
    pub signal_count: usize,
}

/// Everything one submit call is given.
pub struct SubmitPlan {
    pub command_buffers: Vec<u64>,
    pub semaphores: Vec<SemaphoreSubmit>,
    pub submissions: Vec<SubmitRanges>,
}

/// The stages a fence waits in or is signalled after: those of its scope that
/// the device supports, without the host stage.
pub open spec fn fence_stage_mask(sync: u32, supported_stages: u64) -> u64 {
    (vk_barrier_stages(sync) & supported_stages) & !vk::PIPELINE_STAGE2_HOST
}

/// The stages a swapchain semaphore waits in or is signalled after.
pub open spec fn swapchain_stage_mask() -> u64 {
    vk::PIPELINE_STAGE2_ALL_COMMANDS & !vk::PIPELINE_STAGE2_HOST
}

pub open spec fn fence_semaphore(f: FenceValue, supported_stages: u64) -> SemaphoreSubmit {
    SemaphoreSubmit { semaphore: f.fence, value: f.value, stage_mask: fence_stage_mask(f.sync_before, supported_stages) }
}

pub open spec fn fence_semaphores(fences: Seq<FenceValue>, supported_stages: u64) -> Seq<SemaphoreSubmit> {
    fences.map_values(|f: FenceValue| fence_semaphore(f, supported_stages))
}

pub open spec fn swapchain_semaphore(semaphore: Option<u64>) -> Seq<SemaphoreSubmit> {
    match semaphore {
        Option::Some(s) => seq![SemaphoreSubmit { semaphore: s, value: 0, stage_mask: swapchain_stage_mask() }],
        Option::None => Seq::empty(),
    }
}

/// The semaphores a submission waits for: its fences, then the acquired image.
pub open spec fn wait_semaphores(s: SubmissionDesc, supported_stages: u64) -> Seq<SemaphoreSubmit> {
    fence_semaphores(s.wait_fences@, supported_stages) + swapchain_semaphore(s.acquire_semaphore)
}

/// The semaphores a submission signals: its fences, then the image to present.
pub open spec fn signal_semaphores(s: SubmissionDesc, supported_stages: u64) -> Seq<SemaphoreSubmit> {
    fence_semaphores(s.signal_fences@, supported_stages) + swapchain_semaphore(s.release_semaphore)
}

pub open spec fn command_buffers_upto(subs: Seq<SubmissionDesc>, n: nat) -> Seq<u64>
    decreases n,
{
    if n == 0 {
        Seq::empty()
    } else {
        command_buffers_upto(subs, (n - 1) as nat) + subs[n - 1].command_buffers@
    }
}

pub open spec fn semaphores_upto(subs: Seq<SubmissionDesc>, supported_stages: u64, n: nat) -> Seq<SemaphoreSubmit>
    decreases n,
{
    if n == 0 {
        Seq::empty()
    } else {
        semaphores_upto(subs, supported_stages, (n - 1) as nat) + wait_semaphores(subs[n - 1], supported_stages)
            + signal_semaphores(subs[n - 1], supported_stages)
    }
}

/// The ranges of submission `i`: what the submissions before it took comes
/// first, then its waits, then its signals.
pub open spec fn ranges_of(subs: Seq<SubmissionDesc>, supported_stages: u64, i: int) -> SubmitRanges {
    let cmd_start = command_buffers_upto(subs, i as nat).len();
    let wait_start = semaphores_upto(subs, supported_stages, i as nat).len();
    let wait_count = wait_semaphores(subs[i], supported_stages).len();
    SubmitRanges {
        command_buffer_start: cmd_start as usize,
        command_buffer_count: subs[i].command_buffers@.len() as usize,
        wait_start: wait_start as usize,
        wait_count: wait_count as usize,
        signal_start: (wait_start + wait_count) as usize,
        signal_count: signal_semaphores(subs[i], supported_stages).len() as usize,
    }
}

fn push_fences(out: &mut Vec<SemaphoreSubmit>, fences: &Vec<FenceValue>, supported_stages: u64)
    ensures
        final(out)@ == old(out)@ + fence_semaphores(fences@, supported_stages),
{
    let n = fences.len();
    let mut j: usize = 0;
    while j < n
        invariant
            n == fences.len(),
            j <= n,
            out@ == old(out)@ + fence_semaphores(fences@.take(j as int), supported_stages),
        decreases n - j,
    {
        let f = fences[j];
        let stages = barrier_sync_to_stage(f.sync_before);
        out.push(SemaphoreSubmit {
            semaphore: f.fence,
            value: f.value,
            stage_mask: (stages & supported_stages) & !vk::PIPELINE_STAGE2_HOST,
        });
        proof {
            let t = fences@.take(j as int);
            assert(fences@.take(j as int + 1) =~= t.push(f));
            assert(fence_semaphores(t.push(f), supported_stages) =~= fence_semaphores(t, supported_stages).push(
                fence_semaphore(f, supported_stages),
            ));
            assert(out@ =~= old(out)@ + fence_semaphores(fences@.take(j as int + 1), supported_stages));
        }
        j = j + 1;
    }
    assert(fences@.take(n as int) =~= fences@);
}

fn push_swapchain(out: &mut Vec<SemaphoreSubmit>, semaphore: Option<u64>)
    ensures
        final(out)@ == old(out)@ + swapchain_semaphore(semaphore),
{
    match semaphore {
        Option::Some(s) => {
            out.push(SemaphoreSubmit {
                semaphore: s,
                value: 0,
                stage_mask: vk::PIPELINE_STAGE2_ALL_COMMANDS & !vk::PIPELINE_STAGE2_HOST,
            });
            assert(out@ =~= old(out)@ + swapchain_semaphore(semaphore));
        },
        Option::None => {
            assert(out@ =~= old(out)@ + swapchain_semaphore(semaphore));
        },
    }
}

fn push_all(out: &mut Vec<u64>, items: &Vec<u64>)
    ensures
        final(out)@ == old(out)@ + items@,
{
    let n = items.len();
    let mut j: usize = 0;
    while j < n
        invariant
            n == items.len(),
            j <= n,
            out@ == old(out)@ + items@.take(j as int),
        decreases n - j,
    {
        out.push(items[j]);
        assert(items@.take(j as int + 1) =~= items@.take(j as int).push(items@[j as int]));
        assert(out@ =~= old(out)@ + items@.take(j as int + 1));
        j = j + 1;
    }
    assert(items@.take(n as int) =~= items@);
}

/// Lays out a batch of submissions for one submit call: all command buffers in
/// order, all semaphores in order (per submission its waits, then its
/// signals), and the ranges of each submission in both lists. A fence's stage
/// mask is its scope limited to the supported stages, without the host stage;
/// a swapchain semaphore waits in or signals after all commands but the host.
pub fn plan_submit(submissions: &Vec<SubmissionDesc>, supported_stages: u64) -> (r: SubmitPlan)
    requires
        command_buffers_upto(submissions@, submissions@.len()).len() <= usize::MAX,
        semaphores_upto(submissions@, supported_stages, submissions@.len()).len() <= usize::MAX,
    ensures
        r.command_buffers@ == command_buffers_upto(submissions@, submissions@.len()),
        r.semaphores@ == semaphores_upto(submissions@, supported_stages, submissions@.len()),
        r.submissions@.len() == submissions@.len(),
        forall|i: int| 0 <= i < submissions@.len() ==> #[trigger] r.submissions@[i] == ranges_of(submissions@, supported_stages, i),
{
    let n = submissions.len();
    let mut command_buffers: Vec<u64> = Vec::new();
    let mut semaphores: Vec<SemaphoreSubmit> = Vec::new();
    let mut ranges: Vec<SubmitRanges> = Vec::new();
    let mut i: usize = 0;
    while i < n
        invariant
            n == submissions.len(),
            i <= n,
            command_buffers_upto(submissions@, n as nat).len() <= usize::MAX,
            semaphores_upto(submissions@, supported_stages, n as nat).len() <= usize::MAX,
            command_buffers@ == command_buffers_upto(submissions@, i as nat),
            semaphores@ == semaphores_upto(submissions@, supported_stages, i as nat),
            ranges@.len() == i,
            forall|k: int| 0 <= k < i ==> #[trigger] ranges@[k] == ranges_of(submissions@, supported_stages, k),
        decreases n - i,
    {
        let s = &submissions[i];
        proof {
            lemma_upto_grow(submissions@, supported_stages, (i + 1) as nat, n as nat);
        }
        let cmd_start = command_buffers.len();
        push_all(&mut command_buffers, &s.command_buffers);
        let wait_start = semaphores.len();
        push_fences(&mut semaphores, &s.wait_fences, supported_stages);
        push_swapchain(&mut semaphores, s.acquire_semaphore);
        let signal_start = semaphores.len();
        push_fences(&mut semaphores, &s.signal_fences, supported_stages);
        push_swapchain(&mut semaphores, s.release_semaphore);
        let end = semaphores.len();
        let r = SubmitRanges {
            command_buffer_start: cmd_start,
            command_buffer_count: s.command_buffers.len(),
            wait_start,
            wait_count: signal_start - wait_start,
            signal_start,
            signal_count: end - signal_start,
        };
        ranges.push(r);
        proof {
            assert(semaphores@ =~= semaphores_upto(submissions@, supported_stages, (i + 1) as nat));
            assert(ranges@[i as int] == ranges_of(submissions@, supported_stages, i as int));
        }
        i = i + 1;
    }
    SubmitPlan { command_buffers, semaphores, submissions: ranges }
}

/// Submits a batch: every command buffer, given by its life in the order the
/// submissions list them, must be finished, and no command buffer may be
/// listed twice; each is marked submitted, and the batch is laid out as
/// `plan_submit` lays it out.
pub fn submit(submissions: &Vec<SubmissionDesc>, supported_stages: u64, lifecycles: &mut Vec<CommandBufferLifecycle>) -> (r: SubmitPlan)
    requires
        command_buffers_upto(submissions@, submissions@.len()).len() <= usize::MAX,
        semaphores_upto(submissions@, supported_stages, submissions@.len()).len() <= usize::MAX,
        command_buffers_upto(submissions@, submissions@.len()).no_duplicates(),
        old(lifecycles)@.len() == command_buffers_upto(submissions@, submissions@.len()).len(),
        forall|i: int| 0 <= i < old(lifecycles)@.len() ==> (#[trigger] old(lifecycles)@[i]).state == VkCommandBufferState::Finished,
    ensures
        final(lifecycles)@.len() == old(lifecycles)@.len(),
        forall|i: int| 0 <= i < old(lifecycles)@.len() ==> #[trigger] final(lifecycles)@[i] == after_submit(old(lifecycles)@[i]),
        r.command_buffers@ == command_buffers_upto(submissions@, submissions@.len()),
        r.semaphores@ == semaphores_upto(submissions@, supported_stages, submissions@.len()),
        r.submissions@.len() == submissions@.len(),
        forall|i: int| 0 <= i < submissions@.len() ==> #[trigger] r.submissions@[i] == ranges_of(submissions@, supported_stages, i),
{
    let n = lifecycles.len();
    let mut i: usize = 0;
    while i < n
        invariant
            n == lifecycles@.len(),
            n == old(lifecycles)@.len(),
            i <= n,
            forall|j: int| 0 <= j < i ==> #[trigger] lifecycles@[j] == after_submit(old(lifecycles)@[j]),
            forall|j: int| i <= j < n ==> #[trigger] lifecycles@[j] == old(lifecycles)@[j],
            forall|j: int| 0 <= j < n ==> (#[trigger] old(lifecycles)@[j]).state == VkCommandBufferState::Finished,
        decreases n - i,
    {
        let mut c = lifecycles[i];
        c.mark_submitted();
        lifecycles.set(i, c);
        i = i + 1;
    }
    plan_submit(submissions, supported_stages)
}

/// The lists only grow from one submission to the next.
proof fn lemma_upto_grow(subs: Seq<SubmissionDesc>, supported_stages: u64, m: nat, n: nat)
    requires
        m <= n,
    ensures
        command_buffers_upto(subs, m).len() <= command_buffers_upto(subs, n).len(),
        semaphores_upto(subs, supported_stages, m).len() <= semaphores_upto(subs, supported_stages, n).len(),
    decreases n - m,
{
    if m < n {
        lemma_upto_grow(subs, supported_stages, m, (n - 1) as nat);
    }
}

/// The ranges of the submissions tile both lists: each submission's command
/// buffers and semaphores start where those of the one before end, the first
/// start at 0, and the last end at the end of the lists.
pub proof fn law_submit_ranges_tile(subs: Seq<SubmissionDesc>, supported_stages: u64)
    requires
        command_buffers_upto(subs, subs.len()).len() <= usize::MAX,
        semaphores_upto(subs, supported_stages, subs.len()).len() <= usize::MAX,
    ensures
        subs.len() > 0 ==> ranges_of(subs, supported_stages, 0).command_buffer_start == 0
            && ranges_of(subs, supported_stages, 0).wait_start == 0,
        forall|i: int| 0 <= i < subs.len() ==> {
            let r = #[trigger] ranges_of(subs, supported_stages, i);
            let ends_cmd = r.command_buffer_start + r.command_buffer_count;
            let ends_sem = r.signal_start + r.signal_count;
            &&& ends_cmd == command_buffers_upto(subs, (i + 1) as nat).len()
            &&& ends_sem == semaphores_upto(subs, supported_stages, (i + 1) as nat).len()
        },
{
    assert forall|i: int| 0 <= i < subs.len() implies {
        let r = #[trigger] ranges_of(subs, supported_stages, i);
        let ends_cmd = r.command_buffer_start + r.command_buffer_count;
        let ends_sem = r.signal_start + r.signal_count;
        &&& ends_cmd == command_buffers_upto(subs, (i + 1) as nat).len()
        &&& ends_sem == semaphores_upto(subs, supported_stages, (i + 1) as nat).len()
    } by {
        lemma_upto_grow(subs, supported_stages, (i + 1) as nat, subs.len());
        assert(command_buffers_upto(subs, (i + 1) as nat) == command_buffers_upto(subs, i as nat)
            + subs[i].command_buffers@);
    }
}

} // verus!
