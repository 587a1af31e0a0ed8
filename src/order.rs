//! The partial order on spans: two spans compare by their starts and by their
//! ends at once, and are incomparable when the two comparisons disagree.

use core::cmp::Ordering;
use vstd::prelude::*;

use crate::Span;

verus! {

/// Combines the comparison of the starts, `x`, with that of the ends, `y`:
/// equal directions give that direction, `Equal` yields to the other one, and
/// opposite directions give no order.
pub open spec fn spec_dual_order(x: Ordering, y: Ordering) -> Option<Ordering> {
    if x == y {
        Some(x)
    } else if x == Ordering::Equal {
        Some(y)
    } else if y == Ordering::Equal {
        Some(x)
    } else {
        None
    }
}

/// The order of `a` against `b`: `Less` when neither bound of `a` lies above
/// the matching bound of `b` and the spans differ, `Greater` the other way
/// round, `Equal` when they are equal, and none when one bound is below and
/// the other above.
pub open spec fn span_order(a: Span, b: Span) -> Option<Ordering> {
    if a.start == b.start && a.end == b.end {
        Some(Ordering::Equal)
    } else if a.start <= b.start && a.end <= b.end {
        Some(Ordering::Less)
    } else if a.start >= b.start && a.end >= b.end {
        Some(Ordering::Greater)
    } else {
        None
    }
}

fn dual_order(x: Ordering, y: Ordering) -> (r: Option<Ordering>)
    ensures
        r == spec_dual_order(x, y),
{
    match (x, y) {
        (Ordering::Less, Ordering::Greater) | (Ordering::Greater, Ordering::Less) => None,
        (Ordering::Equal, o) => Some(o),
        (o, _) => Some(o),
    }
}

impl PartialOrd for Span {
    fn partial_cmp(&self, other: &Span) -> (r: Option<Ordering>) {
        dual_order(self.start.cmp(&other.start), self.end.cmp(&other.end))
    }
}

impl vstd::std_specs::cmp::PartialOrdSpecImpl for Span {
    open spec fn obeys_partial_cmp_spec() -> bool {
        true
    }

    open spec fn partial_cmp_spec(&self, other: &Span) -> Option<Ordering> {
        span_order(*self, *other)
    }
}

} // verus!
