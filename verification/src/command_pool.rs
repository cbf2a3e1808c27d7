//! The command buffers a command pool keeps for reuse. A buffer is taken from
//! the free buffers of its kind, or made new where there is none; once the
//! queue is done with it, it is given back, and the next reset of the pool
//! makes it free again.
use vstd::prelude::*;
use crate::vk_values as vk;

verus! {

/// A command buffer handed back to its pool: its handle, and whether it is a
/// primary one.
#[derive(Clone, Copy, PartialEq, Eq, Structural, Debug)]
pub struct ReturnedBuffer {
    pub handle: u64,
    pub primary: bool,
}

/// The command buffers of a pool that are free, by kind, and those given back
/// since the last reset, in the order they came.
#[derive(Clone, Debug)]
pub struct CommandBufferPool {
    pub primary_free: Vec<u64>,
    pub secondary_free: Vec<u64>,
    pub returned: Vec<ReturnedBuffer>,
}

pub open spec fn handles_of(rs: Seq<ReturnedBuffer>, primary: bool) -> Seq<u64> {
    rs.filter(|r: ReturnedBuffer| r.primary == primary).map_values(|r: ReturnedBuffer| r.handle)
}

/// The flags of a command pool: buffers that are reset one by one, and short
/// lived buffers, as the engine asks.
pub open spec fn pool_create_flags(individual_reset: bool, transient: bool) -> u32 {
    match (individual_reset, transient) {
        (true, true) => vk::COMMAND_POOL_CREATE_RESET_COMMAND_BUFFER | vk::COMMAND_POOL_CREATE_TRANSIENT,
        (true, false) => vk::COMMAND_POOL_CREATE_RESET_COMMAND_BUFFER,
        (false, true) => vk::COMMAND_POOL_CREATE_TRANSIENT,
        (false, false) => 0,
    }
}

pub fn command_pool_create_flags(individual_reset: bool, transient: bool) -> (r: u32)
    ensures
        r == pool_create_flags(individual_reset, transient),
{
    match (individual_reset, transient) {
        (true, true) => vk::COMMAND_POOL_CREATE_RESET_COMMAND_BUFFER | vk::COMMAND_POOL_CREATE_TRANSIENT,
        (true, false) => vk::COMMAND_POOL_CREATE_RESET_COMMAND_BUFFER,
        (false, true) => vk::COMMAND_POOL_CREATE_TRANSIENT,
        (false, false) => 0,
    }
}

impl CommandBufferPool {
    /// A pool that has made no command buffer yet.
    pub fn new() -> (r: Self)
        ensures
            r.primary_free@.len() == 0,
            r.secondary_free@.len() == 0,
            r.returned@.len() == 0,
    {
        CommandBufferPool { primary_free: Vec::new(), secondary_free: Vec::new(), returned: Vec::new() }
    }

    /// Takes the most recently freed buffer of a kind; `None` where a new one
    /// must be made.
    pub fn take(&mut self, primary: bool) -> (r: Option<u64>)
        ensures
            final(self).returned@ == old(self).returned@,
            primary ==> final(self).secondary_free@ == old(self).secondary_free@,
            !primary ==> final(self).primary_free@ == old(self).primary_free@,
            ({
                let free = if primary { old(self).primary_free@ } else { old(self).secondary_free@ };
                let after = if primary { final(self).primary_free@ } else { final(self).secondary_free@ };
                if free.len() == 0 {
                    &&& r is None
                    &&& after == free
                } else {
                    &&& r == Some(free.last())
                    &&& after == free.drop_last()
                }
            }),
    {
        if primary {
            self.primary_free.pop()
        } else {
            self.secondary_free.pop()
        }
    }

    /// Gives a buffer back once the queue is done with it.
    pub fn give_back(&mut self, handle: u64, primary: bool)
        ensures
            final(self).returned@ == old(self).returned@.push(ReturnedBuffer { handle, primary }),
            final(self).primary_free@ == old(self).primary_free@,
            final(self).secondary_free@ == old(self).secondary_free@,
    {
        self.returned.push(ReturnedBuffer { handle, primary });
    }

    /// Resets the pool: every buffer given back since the last reset becomes
    /// free, in the order it came. Returns those buffers, which are to be
    /// reset themselves.
    pub fn reset(&mut self) -> (r: Vec<ReturnedBuffer>)
        ensures
            r@ == old(self).returned@,
            final(self).returned@.len() == 0,
            final(self).primary_free@ == old(self).primary_free@ + handles_of(old(self).returned@, true),
            final(self).secondary_free@ == old(self).secondary_free@ + handles_of(old(self).returned@, false),
    {
        let mut returned: Vec<ReturnedBuffer> = Vec::new();
        std::mem::swap(&mut returned, &mut self.returned);
        let ghost p0 = self.primary_free@;
        let ghost s0 = self.secondary_free@;
        let n = returned.len();
        let mut i: usize = 0;
        while i < n
            invariant
                n == returned.len(),
                i <= n,
                self.returned@.len() == 0,
                self.primary_free@ == p0 + handles_of(returned@.take(i as int), true),
                self.secondary_free@ == s0 + handles_of(returned@.take(i as int), false),
            decreases n - i,
        {
            let b = returned[i];
            proof {
                let t = returned@.take(i as int);
                assert(returned@.take(i as int + 1) =~= t.push(b));
                reveal(Seq::filter);
                assert(t.push(b).filter(|r: ReturnedBuffer| r.primary == true) =~= if b.primary {
                    t.filter(|r: ReturnedBuffer| r.primary == true).push(b)
                } else {
                    t.filter(|r: ReturnedBuffer| r.primary == true)
                }) by {
                    t.filter_lemma(|r: ReturnedBuffer| r.primary == true);
                    assert(t.push(b).drop_last() =~= t);
                }
                assert(t.push(b).filter(|r: ReturnedBuffer| r.primary == false) =~= if !b.primary {
                    t.filter(|r: ReturnedBuffer| r.primary == false).push(b)
                } else {
                    t.filter(|r: ReturnedBuffer| r.primary == false)
                }) by {
                    assert(t.push(b).drop_last() =~= t);
                }
            }
            if b.primary {
                self.primary_free.push(b.handle);
            } else {
                self.secondary_free.push(b.handle);
            }
            proof {
                let t = returned@.take(i as int);
                assert(handles_of(t.push(b), true) =~= if b.primary {
                    handles_of(t, true).push(b.handle)
                } else {
                    handles_of(t, true)
                });
                assert(handles_of(t.push(b), false) =~= if !b.primary {
                    handles_of(t, false).push(b.handle)
                } else {
                    handles_of(t, false)
                });
                assert(self.primary_free@ =~= p0 + handles_of(returned@.take(i as int + 1), true));
                assert(self.secondary_free@ =~= s0 + handles_of(returned@.take(i as int + 1), false));
            }
            i = i + 1;
        }
        assert(returned@.take(n as int) =~= returned@);
        returned
    }
}

/// Every buffer given back to a pool is free after the next reset, among the
/// free buffers of its kind.
pub proof fn law_given_back_becomes_free(free: Seq<u64>, returned: Seq<ReturnedBuffer>, primary: bool)
    ensures
        forall|i: int|
            0 <= i < returned.len() && returned[i].primary == primary ==> (free + handles_of(returned, primary)).contains(
                #[trigger] returned[i].handle,
            ),
{
    let pred = |r: ReturnedBuffer| r.primary == primary;
    returned.filter_lemma(pred);
    let kept = returned.filter(pred);
    assert forall|i: int| 0 <= i < returned.len() && returned[i].primary == primary implies (free + handles_of(
        returned,
        primary,
    )).contains(#[trigger] returned[i].handle) by {
        assert(pred(returned[i]));
        assert(kept.contains(returned[i]));
        let j = choose|j: int| 0 <= j < kept.len() && kept[j] == returned[i];
        let hs = handles_of(returned, primary);
        assert(hs[j] == returned[i].handle);
        assert((free + hs)[free.len() + j] == returned[i].handle);
    }
}

} // verus!
