use vstd::prelude::*;

verus! {

/// The bookkeeping of a buffer that the engine allocated: its length in
/// elements, and whether it has been handed back to the engine's own
/// deallocator. Whoever holds the buffer asks `release` before freeing it.
#[derive(Debug)]
pub struct ReleaseGuard {
    length: usize,
    released: bool,
}

/// Whether asking `release` of a guard in state `released` frees the buffer.
pub open spec fn spec_release_frees(released: bool) -> bool {
    !released
}

/// The state of a guard after `release` is asked of it in state `released`.
pub open spec fn spec_after_release(released: bool) -> bool {
    true
}

/// How many times a buffer is handed back to its deallocator when `release`
/// is asked `k` more times, from a guard in state `released`.
pub open spec fn spec_frees(released: bool, k: nat) -> nat
    decreases k,
{
    if k == 0 {
        0
    } else {
        (if spec_release_frees(released) {
            1nat
        } else {
            0nat
        }) + spec_frees(spec_after_release(released), (k - 1) as nat)
    }
}

/// How many frees a run of wrap and release cycles makes: each entry is the
/// number of times `release` is asked of one freshly wrapped buffer.
pub open spec fn spec_cycle_frees(asks: Seq<nat>) -> nat
    decreases asks.len(),
{
    if asks.len() == 0 {
        0
    } else {
        spec_cycle_frees(asks.drop_last()) + spec_frees(false, asks.last())
    }
}

impl ReleaseGuard {
    pub closed spec fn spec_len(&self) -> nat {
        self.length as nat
    }

    pub closed spec fn spec_released(&self) -> bool {
        self.released
    }

    /// The guard of a buffer of `length` elements just handed out by the engine.
    pub fn new(length: usize) -> (r: ReleaseGuard)
        ensures
            r.spec_len() == length,
            !r.spec_released(),
    {
        ReleaseGuard { length, released: false }
    }

    /// The number of elements of the buffer.
    pub fn len(&self) -> (r: usize)
        ensures
            r == self.spec_len(),
    {
        self.length
    }

    /// Whether the buffer has been handed back.
    pub fn is_released(&self) -> (r: bool)
        ensures
            r == self.spec_released(),
    {
        self.released
    }

    /// Marks the buffer released. `true` exactly on the first call: the caller
    /// then frees the buffer, and on every later call it must not.
    pub fn release(&mut self) -> (free: bool)
        ensures
            free == spec_release_frees(old(self).spec_released()),
            final(self).spec_released() == spec_after_release(old(self).spec_released()),
            final(self).spec_len() == old(self).spec_len(),
    {
        let free = !self.released;
        self.released = true;
        free
    }
}

/// A wrapped buffer asked to release itself one or more times is freed
/// exactly once.
pub proof fn lemma_release_exactly_once(k: nat)
    requires
        k >= 1,
    ensures
        spec_frees(false, k) == 1,
{
    lemma_released_frees_nothing((k - 1) as nat);
}

/// A buffer that has been released is never freed again.
pub proof fn lemma_released_frees_nothing(k: nat)
    ensures
        spec_frees(true, k) == 0,
    decreases k,
{
    if k > 0 {
        lemma_released_frees_nothing((k - 1) as nat);
    }
}

/// Over any number of wrap and release cycles, in which each wrapped buffer
/// is asked to release itself at least once, the deallocator runs exactly as
/// many times as buffers were wrapped.
pub proof fn lemma_cycles_free_once_each(asks: Seq<nat>)
    requires
        forall|i: int| 0 <= i < asks.len() ==> asks[i] >= 1,
    ensures
        spec_cycle_frees(asks) == asks.len(),
    decreases asks.len(),
{
    if asks.len() > 0 {
        lemma_cycles_free_once_each(asks.drop_last());
        lemma_release_exactly_once(asks.last());
    }
}

} // verus!
