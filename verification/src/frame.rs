//! When the frame statistics shown in the control panel are recomputed.
use vstd::prelude::*;

verus! {

/// The displayed frame rate and CPU time are recomputed once every this many
/// frames, which keeps the numbers readable without making them less accurate.
pub const REFRESH_INTERVAL: u64 = 20;

/// The number of frames kept in the frame time history.
pub const HISTORY_LEN: usize = 200;

/// Whether the displayed statistics are recomputed on the frame that brings
/// the frame count to `count`.
pub open spec fn refresh_due(count: int) -> bool {
    count % (REFRESH_INTERVAL as int) == 0
}

/// Counts the frames and tells on which ones the displayed statistics are
/// recomputed.
#[derive(Clone, Copy, Debug)]
pub struct RefreshCounter {
    pub refresh_count: u64,
}

impl RefreshCounter {
    /// A counter that has seen no frame.
    pub fn new() -> (counter: RefreshCounter)
        ensures
            counter.refresh_count == 0,
    {
        RefreshCounter { refresh_count: 0 }
    }

    /// Counts one more frame; returns whether the displayed statistics are to
    /// be recomputed on it.
    pub fn on_new_frame(&mut self) -> (refresh: bool)
        requires
            old(self).refresh_count < u64::MAX,
        ensures
            final(self).refresh_count == old(self).refresh_count + 1,
            refresh == refresh_due(final(self).refresh_count as int),
            refresh <==> (old(self).refresh_count + 1) % 20 == 0,
    {
        self.refresh_count = self.refresh_count + 1;
        self.refresh_count % REFRESH_INTERVAL == 0
    }
}

/// Of any `REFRESH_INTERVAL` consecutive frames, exactly one recomputes the
/// displayed statistics.
pub proof fn lemma_one_refresh_per_interval(count: nat)
    ensures
        exists|j: int|
            1 <= j <= REFRESH_INTERVAL && #[trigger] refresh_due(count + j) && forall|k: int|
                1 <= k <= REFRESH_INTERVAL && k != j ==> !#[trigger] refresh_due(count + k),
{
    let j: int = 20 - (count as int) % 20;
    assert(refresh_due(count + j));
    assert forall|k: int| 1 <= k <= REFRESH_INTERVAL && k != j implies !#[trigger] refresh_due(
        count + k,
    ) by {}
}

} // verus!
