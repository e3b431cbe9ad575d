//! Host-side bookkeeping of the per-slot fences.
//!
//! Each frame slot owns one fence. Its life is a cycle: it starts signaled,
//! is reset when a frame begins on the slot, becomes pending when work that
//! signals it is submitted, and is signaled again once the host has seen that
//! work complete.
use vstd::prelude::*;

verus! {

/// Where a slot's fence stands, as far as the host knows.
#[derive(Clone, Copy, Debug, PartialEq, Eq, Structural)]
pub enum FenceState {
    /// Signaled and not yet reset: the slot is free.
    Signaled,
    /// Reset by the frame that now holds the slot; nothing will signal it yet.
    Reset,
    /// Submitted with work that signals it on completion.
    Pending,
}

/// The fences of all frame slots.
#[derive(Debug)]
pub struct FrameSync {
    fences: Vec<FenceState>,
}

/// `n` fences, all signaled.
pub open spec fn all_signaled(n: nat) -> Seq<FenceState> {
    Seq::new(n, |i: int| FenceState::Signaled)
}

/// The fences after a wait for the whole device: pending work has completed,
/// a fence that a frame holds stays as it is.
pub open spec fn settle(fences: Seq<FenceState>) -> Seq<FenceState> {
    fences.map_values(
        |f: FenceState|
            if f == FenceState::Pending {
                FenceState::Signaled
            } else {
                f
            },
    )
}

impl View for FrameSync {
    type V = Seq<FenceState>;

    closed spec fn view(&self) -> Seq<FenceState> {
        self.fences@
    }
}

impl FrameSync {
    /// Fences for `slots` slots, all created signaled so that the first wait
    /// on each returns at once.
    pub fn new(slots: usize) -> (r: FrameSync)
        ensures
            r@ == all_signaled(slots as nat),
    {
        let mut fences: Vec<FenceState> = Vec::new();
        let mut i: usize = 0;
        while i < slots
            invariant
                0 <= i <= slots,
                fences@ == all_signaled(i as nat),
            decreases slots - i,
        {
            fences.push(FenceState::Signaled);
            i = i + 1;
            assert(fences@ =~= all_signaled(i as nat));
        }
        FrameSync { fences }
    }

    pub fn slot_count(&self) -> (r: usize)
        ensures
            r == self@.len(),
    {
        self.fences.len()
    }

    pub fn state(&self, slot: usize) -> (r: FenceState)
        requires
            slot < self@.len(),
        ensures
            r == self@[slot as int],
    {
        self.fences[slot]
    }

    /// Resets the fence of `slot` if it is signaled; reports whether it was.
    pub fn reset(&mut self, slot: usize) -> (r: bool)
        requires
            slot < old(self)@.len(),
        ensures
            r == (old(self)@[slot as int] == FenceState::Signaled),
            final(self)@ == if r {
                old(self)@.update(slot as int, FenceState::Reset)
            } else {
                old(self)@
            },
    {
        if self.fences[slot] == FenceState::Signaled {
            self.fences.set(slot, FenceState::Reset);
            true
        } else {
            false
        }
    }

    /// Marks the fence of `slot`, which a frame holds, as submitted; reports
    /// whether it was held.
    pub fn submit(&mut self, slot: usize) -> (r: bool)
        requires
            slot < old(self)@.len(),
        ensures
            r == (old(self)@[slot as int] == FenceState::Reset),
            final(self)@ == if r {
                old(self)@.update(slot as int, FenceState::Pending)
            } else {
                old(self)@
            },
    {
        if self.fences[slot] == FenceState::Reset {
            self.fences.set(slot, FenceState::Pending);
            true
        } else {
            false
        }
    }

    /// Records that the host saw the fence of `slot` signal; reports whether
    /// it was pending.
    pub fn complete(&mut self, slot: usize) -> (r: bool)
        requires
            slot < old(self)@.len(),
        ensures
            r == (old(self)@[slot as int] == FenceState::Pending),
            final(self)@ == if r {
                old(self)@.update(slot as int, FenceState::Signaled)
            } else {
                old(self)@
            },
    {
        if self.fences[slot] == FenceState::Pending {
            self.fences.set(slot, FenceState::Signaled);
            true
        } else {
            false
        }
    }

    /// Records that the whole device went idle: every pending fence signaled.
    pub fn settle_all(&mut self)
        ensures
            final(self)@ == settle(old(self)@),
    {
        let mut i: usize = 0;
        let ghost start = self.fences@;
        while i < self.fences.len()
            invariant
                0 <= i <= start.len(),
                self.fences@.len() == start.len(),
                forall|j: int| 0 <= j < i ==> self.fences@[j] == settle(start)[j],
                forall|j: int| i <= j < start.len() ==> self.fences@[j] == start[j],
            decreases start.len() - i,
        {
            if self.fences[i] == FenceState::Pending {
                self.fences.set(i, FenceState::Signaled);
            }
            i = i + 1;
        }
        assert(self.fences@ =~= settle(start));
    }

    /// Whether every fence is signaled: no slot is held and no work is in flight.
    pub fn is_quiet(&self) -> (r: bool)
        ensures
            r == (forall|j: int| 0 <= j < self@.len() ==> self@[j] == FenceState::Signaled),
    {
        let mut i: usize = 0;
        while i < self.fences.len()
            invariant
                0 <= i <= self@.len(),
                forall|j: int| 0 <= j < i ==> self@[j] == FenceState::Signaled,
            decreases self@.len() - i,
        {
            if self.fences[i] != FenceState::Signaled {
                return false;
            }
            i = i + 1;
        }
        true
    }
}

} // verus!
