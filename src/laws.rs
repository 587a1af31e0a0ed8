//! Laws that relate the operations on spans to their lengths, and the
//! conversions to one another.

use core::ops::Range;
use vstd::prelude::*;
use vstd::std_specs::convert::FromSpec;

use crate::{Span, SpanValue};

verus! {

/// Growing a span from the front by `k` adds `k` to its length.
pub proof fn lemma_grow_front_len(s: Span, k: SpanValue)
    requires
        s.wf(),
        s.end + k <= SpanValue::MAX,
    ensures
        s.spec_grow_front(k).wf(),
        s.spec_grow_front(k).spec_len() == s.spec_len() + k,
{
}

/// Growing a span from the back by `k`, when `k` does not exceed its start,
/// moves the start back by `k` and adds `k` to its length.
pub proof fn lemma_grow_back_len(s: Span, k: SpanValue)
    requires
        s.wf(),
        k <= s.start,
    ensures
        s.spec_grow_back(k).wf(),
        s.spec_grow_back(k).start == s.start - k,
        s.spec_grow_back(k).spec_len() == s.spec_len() + k,
{
}

/// Shrinking a span from either side by `k`, when `k` does not exceed its
/// length, takes exactly `k` from its length.
pub proof fn lemma_shrink_len(s: Span, k: SpanValue)
    requires
        s.wf(),
        k <= s.spec_len(),
    ensures
        s.spec_shrink_back(k).wf(),
        s.spec_shrink_back(k).spec_len() == s.spec_len() - k,
        s.spec_shrink_front(k).wf(),
        s.spec_shrink_front(k).spec_len() == s.spec_len() - k,
{
}

/// Converting a span to a range and back gives the same span.
pub proof fn lemma_range_round_trip(s: Span)
    ensures
        <Span as FromSpec<Range<SpanValue>>>::from_spec(
            <Range<SpanValue> as FromSpec<Span>>::from_spec(s),
        ) == s,
{
}

} // verus!
