use vstd::prelude::*;

verus! {

// ---------------------------------------------------------------------------
// Transfer progress
// ---------------------------------------------------------------------------

/// An immutable snapshot of a version-control transfer's progress, handed to
/// the reporting routine instead of shared mutable state: objects received
/// and indexed out of the total, and checkout progress.
#[derive(Debug, Clone, Copy, PartialEq, Eq, Structural)]
pub struct ProgressSnapshot {
    pub received_objects: usize,
    pub total_objects: usize,
    pub indexed_objects: usize,
    pub checkout_current: usize,
    pub checkout_total: usize,
}

/// A snapshot never reports more work done than there is.
pub open spec fn snapshot_wf(s: ProgressSnapshot) -> bool {
    &&& s.received_objects <= s.total_objects
    &&& s.indexed_objects <= s.total_objects
    &&& s.checkout_current <= s.checkout_total
}

/// The percentage `part` is of `whole`, rounded down; zero of an empty whole.
pub open spec fn spec_percent(part: int, whole: int) -> int {
    if whole > 0 {
        100 * part / whole
    } else {
        0
    }
}

/// Computes the percentage `part` is of `whole`. This is the only work the
/// progress sink does inline with the transfer, so it is cheap and never
/// blocks.
pub fn percent(part: usize, whole: usize) -> (r: u8)
    requires
        part <= whole,
    ensures
        r == spec_percent(part as int, whole as int),
        r <= 100,
{
    if whole == 0 {
        return 0;
    }
    let wide: u128 = (part as u128) * 100 / (whole as u128);
    proof {
        assert(100 * part <= 100 * whole) by (nonlinear_arith)
            requires part <= whole,
        ;
        assert(100 * part / (whole as int) <= 100 * whole / (whole as int)) by (nonlinear_arith)
            requires 100 * part <= 100 * whole && whole > 0,
        ;
        assert(100 * whole / (whole as int) == 100) by (nonlinear_arith)
            requires whole > 0,
        ;
        assert((part as u128) * 100 == 100 * (part as int));
    }
    wide as u8
}

impl ProgressSnapshot {
    /// The three percentages a progress line reports: objects received,
    /// objects indexed, and checkout progress.
    pub fn percentages(&self) -> (r: (u8, u8, u8))
        requires
            snapshot_wf(*self),
        ensures
            r.0 == spec_percent(self.received_objects as int, self.total_objects as int),
            r.1 == spec_percent(self.indexed_objects as int, self.total_objects as int),
            r.2 == spec_percent(self.checkout_current as int, self.checkout_total as int),
    {
        (
            percent(self.received_objects, self.total_objects),
            percent(self.indexed_objects, self.total_objects),
            percent(self.checkout_current, self.checkout_total),
        )
    }
}

} // verus!
