//! Substrate accounting for the assimilation monitor.  The periodic walk
//! that gathers file sizes, and the unit rendering of the total, live
//! outside the library.

use vstd::prelude::*;

verus! {

/// The sum of the first `i` file sizes, as an unbounded integer.
pub open spec fn size_sum_prefix(sizes: Seq<u64>, i: int) -> int
    decreases i,
{
    if i <= 0 {
        0
    } else {
        size_sum_prefix(sizes, i - 1) + sizes[i - 1]
    }
}

/// The total of all file sizes, as an unbounded integer.
pub open spec fn size_sum(sizes: Seq<u64>) -> int {
    size_sum_prefix(sizes, sizes.len() as int)
}

/// Monitors how much of the substrate has been assimilated.
pub struct GlobalAssimilationMonitor {}

impl GlobalAssimilationMonitor {
    /// The total size, in bytes, of the files making up the substrate,
    /// saturating at the largest representable value.
    pub fn measure_real_substrate_size(sizes: &Vec<u64>) -> (t: u64)
        ensures
            t == (if size_sum(sizes@) <= u64::MAX {
                size_sum(sizes@)
            } else {
                u64::MAX as int
            }),
    {
        let n = sizes.len();
        let mut t: u64 = 0;
        let mut i: usize = 0;
        while i < n
            invariant
                i <= n,
                n == sizes@.len(),
                t == (if size_sum_prefix(sizes@, i as int) <= u64::MAX {
                    size_sum_prefix(sizes@, i as int)
                } else {
                    u64::MAX as int
                }),
            decreases n - i,
        {
            let s = sizes[i];
            if s > u64::MAX - t {
                t = u64::MAX;
            } else {
                t = t + s;
            }
            i += 1;
        }
        t
    }
}

} // verus!
