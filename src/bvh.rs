use vstd::prelude::*;

verus! {

/// How a bounding-volume hierarchy node is built over a run of surfaces.
#[derive(Clone, Copy, Debug, PartialEq, Eq, Structural)]
pub enum SplitPlan {
    /// One surface: both children refer to it.
    Single,
    /// Two surfaces: they become the two children directly, in order.
    Pair,
    /// Three or more: sort the run along the split axis, then build one child
    /// over `[0, mid)` and the other over `[mid, len)`.
    Halves { mid: usize },
}

/// Decides how a node over `len` surfaces is built. Every half of a split
/// is non-empty and strictly shorter than the run, so building terminates.
pub fn plan_split(len: usize) -> (r: SplitPlan)
    requires
        len >= 1,
    ensures
        r == SplitPlan::Single <==> len == 1,
        r == SplitPlan::Pair <==> len == 2,
        len >= 3 ==> r == (SplitPlan::Halves { mid: len / 2 }),
        r matches SplitPlan::Halves { mid } ==> 0 < mid < len,
{
    if len == 1 {
        SplitPlan::Single
    } else if len == 2 {
        SplitPlan::Pair
    } else {
        SplitPlan::Halves { mid: len / 2 }
    }
}

} // verus!
