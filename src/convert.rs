//! Lossless conversions between spans and ranges of positions.

use core::ops::Range;
use vstd::prelude::*;

use crate::{Span, SpanValue};

verus! {

impl From<Span> for Range<SpanValue> {
    fn from(val: Span) -> (r: Range<SpanValue>) {
        val.start..val.end
    }
}

impl vstd::std_specs::convert::FromSpecImpl<Span> for Range<SpanValue> {
    open spec fn obeys_from_spec() -> bool {
        true
    }

    open spec fn from_spec(val: Span) -> Range<SpanValue> {
        Range { start: val.start, end: val.end }
    }
}

/// The bounds are stored as they are given. A range whose end lies below its
/// start gives a span that is not `wf`, as writing the fields directly would;
/// `Span::new_from` is the constructor that refuses such bounds.
impl From<Range<SpanValue>> for Span {
    fn from(value: Range<SpanValue>) -> (r: Span) {
        Span { start: value.start, end: value.end }
    }
}

impl vstd::std_specs::convert::FromSpecImpl<Range<SpanValue>> for Span {
    open spec fn obeys_from_spec() -> bool {
        true
    }

    open spec fn from_spec(value: Range<SpanValue>) -> Span {
        Span { start: value.start, end: value.end }
    }
}

} // verus!
