use vstd::prelude::*;

verus! {

/// What to do when the caller's buffer is smaller than what there is to
/// report. The boundary leaves this to the side that fills the buffer, so it
/// is chosen explicitly.
#[derive(Debug, Clone, Copy, PartialEq, Eq, Structural)]
pub enum OverflowPolicy {
    /// Fill every slot and report how many items were left out.
    Truncate,
    /// Write nothing and report how many slots would be needed.
    Refuse,
}

/// How a fill went. The `usize` fields are counts of items.
#[derive(Debug, Clone, Copy, PartialEq, Eq, Structural)]
pub enum FillOutcome {
    /// Every item was written.
    Complete { written: usize },
    /// The buffer was filled with the first items; `available` were there.
    Truncated { written: usize, available: usize },
    /// Nothing was written; `needed` slots would have been.
    Refused { needed: usize },
}

impl FillOutcome {
    pub open spec fn spec_count(self) -> usize {
        match self {
            FillOutcome::Complete { written } => written,
            FillOutcome::Truncated { written, .. } => written,
            FillOutcome::Refused { .. } => 0,
        }
    }

    /// The count to hand back through the in/out length: the number of
    /// slots that now hold an item.
    pub fn count(&self) -> (r: usize)
        ensures
            r == self.spec_count(),
    {
        match *self {
            FillOutcome::Complete { written } => written,
            FillOutcome::Truncated { written, .. } => written,
            FillOutcome::Refused { .. } => 0,
        }
    }
}

/// The outcome that filling `n` slots from `m` items under `p` has.
pub open spec fn spec_fill_outcome(n: nat, m: nat, p: OverflowPolicy) -> FillOutcome {
    if m <= n {
        FillOutcome::Complete { written: m as usize }
    } else {
        match p {
            OverflowPolicy::Truncate => FillOutcome::Truncated {
                written: n as usize,
                available: m as usize,
            },
            OverflowPolicy::Refuse => FillOutcome::Refused { needed: m as usize },
        }
    }
}

/// Fills a caller-allocated buffer of slots from `items`, front first. The
/// buffer's length is its capacity and does not change; slots past the
/// written ones keep what they held.
pub fn fill_slots<T: Copy>(slots: &mut Vec<T>, items: &[T], policy: OverflowPolicy) -> (r:
    FillOutcome)
    ensures
        r == spec_fill_outcome(old(slots)@.len(), items@.len(), policy),
        final(slots)@.len() == old(slots)@.len(),
        forall|i: int|
            0 <= i < r.spec_count() ==> #[trigger] final(slots)@[i] == items@[i],
        forall|i: int|
            r.spec_count() <= i < old(slots)@.len() ==> #[trigger] final(slots)@[i]
                == old(slots)@[i],
{
    let n = slots.len();
    let m = items.len();
    let count: usize;
    let r: FillOutcome;
    if m <= n {
        count = m;
        r = FillOutcome::Complete { written: m };
    } else {
        match policy {
            OverflowPolicy::Truncate => {
                count = n;
                r = FillOutcome::Truncated { written: n, available: m };
            },
            OverflowPolicy::Refuse => {
                count = 0;
                r = FillOutcome::Refused { needed: m };
            },
        }
    }
    let mut i: usize = 0;
    while i < count
        invariant
            count <= n,
            count <= m,
            n == old(slots)@.len(),
            m == items@.len(),
            slots@.len() == n,
            i <= count,
            forall|k: int| 0 <= k < i ==> #[trigger] slots@[k] == items@[k],
            forall|k: int| i <= k < n ==> #[trigger] slots@[k] == old(slots)@[k],
        decreases count - i,
    {
        slots.set(i, items[i]);
        i = i + 1;
    }
    r
}

/// When the buffer holds at least as many slots as there are items, every
/// item is written, whatever the policy, and the reported count is the
/// number of items.
pub proof fn lemma_fill_fits(n: nat, m: nat, p: OverflowPolicy)
    requires
        m <= n,
        m <= usize::MAX,
    ensures
        spec_fill_outcome(n, m, p) == (FillOutcome::Complete { written: m as usize }),
        spec_fill_outcome(n, m, p).spec_count() == m,
{
}

} // verus!
