//! A half-open interval `[start, end)` of positions in a text buffer, with
//! verified arithmetic, slicing and conversions.

use vstd::prelude::*;
use vstd::string::StrSliceExecFns;
use vstd::string::StringSliceAdditionalSpecFns;
use vstd::utf8::*;

pub mod convert;
pub mod laws;
pub mod order;

verus! {

/// The integer type of span positions.
pub type SpanValue = usize;

/// The `Span` type represents an area of a file: the positions from `start`
/// (inclusive) up to `end` (exclusive).
///
/// The fields are public, so a `Span` with `end < start` can be written down;
/// every operation that reads the length asks for `wf` in its `requires`.
#[derive(Debug, Clone, Copy, PartialEq, Eq, Hash, Structural)]
pub struct Span {
    /// The start of the `Span` (inclusive).
    pub start: SpanValue,
    /// The end of the `Span` (exclusive).
    pub end: SpanValue,
}

impl Span {
    /// A span is well formed when it has no negative length.
    pub open spec fn wf(self) -> bool {
        self.start <= self.end
    }

    /// The number of positions that the span covers.
    pub open spec fn spec_len(self) -> int {
        self.end - self.start
    }

    /// The span that `grow_front` leaves: `end` moved up by `amount`.
    pub open spec fn spec_grow_front(self, amount: SpanValue) -> Span {
        Span { start: self.start, end: (self.end + amount) as SpanValue }
    }

    /// The span that `grow_back` leaves: `start` moved back by `amount`.
    pub open spec fn spec_grow_back(self, amount: SpanValue) -> Span {
        Span { start: (self.start - amount) as SpanValue, end: self.end }
    }

    /// The span that `shrink_back` leaves: `start` moved up by `amount`.
    pub open spec fn spec_shrink_back(self, amount: SpanValue) -> Span {
        Span { start: (self.start + amount) as SpanValue, end: self.end }
    }

    /// The span that `shrink_front` leaves: `end` moved back by `amount`.
    pub open spec fn spec_shrink_front(self, amount: SpanValue) -> Span {
        Span { start: self.start, end: (self.end - amount) as SpanValue }
    }

    /// Creates a new `Span` that starts and ends at position 0, and so has a
    /// length of zero.
    pub fn new() -> (r: Self)
        ensures
            r == (Span { start: 0, end: 0 }),
            r.wf(),
            r.spec_len() == 0,
    {
        Self::new_from(0, 0)
    }

    /// Creates a new `Span` from a pair of start and end positions. A span
    /// cannot have a negative length, so `start` must not exceed `end`.
    pub fn new_from(start: SpanValue, end: SpanValue) -> (r: Self)
        requires
            start <= end,
        ensures
            r == (Span { start, end }),
            r.wf(),
            r.spec_len() == end - start,
    {
        Span { start, end }
    }

    /// Grows the span from the front: moves `end` up by `amount`. The new end
    /// must fit in a `SpanValue`.
    pub fn grow_front(&mut self, amount: SpanValue)
        requires
            old(self).end + amount <= SpanValue::MAX,
        ensures
            *final(self) == old(self).spec_grow_front(amount),
    {
        self.end = self.end + amount;
    }

    /// Returns the span grown from the front: `end` moved up by `amount`.
    pub fn with_grow_front(&self, amount: SpanValue) -> (r: Self)
        requires
            self.end + amount <= SpanValue::MAX,
        ensures
            r == self.spec_grow_front(amount),
    {
        let mut grown = *self;
        grown.end = grown.end + amount;
        grown
    }

    /// Grows the span from the back: moves `start` back by `amount`. A span
    /// cannot start before position 0, so `amount` must not exceed `start`.
    pub fn grow_back(&mut self, amount: SpanValue)
        requires
            amount <= old(self).start,
        ensures
            *final(self) == old(self).spec_grow_back(amount),
    {
        self.start = self.start - amount;
    }

    /// Returns the span grown from the back: `start` moved back by `amount`,
    /// which must not exceed `start`.
    pub fn with_grow_back(&self, amount: SpanValue) -> (r: Self)
        requires
            amount <= self.start,
        ensures
            r == self.spec_grow_back(amount),
    {
        let mut grown = *self;
        grown.start = grown.start - amount;
        grown
    }

    /// Shrinks the span from the back: moves `start` up by `amount`. A span
    /// cannot have a negative length, so `amount` must not exceed its length.
    pub fn shrink_back(&mut self, amount: SpanValue)
        requires
            old(self).wf(),
            amount <= old(self).spec_len(),
        ensures
            *final(self) == old(self).spec_shrink_back(amount),
    {
        self.start = self.start + amount;
    }

    /// Returns the span shrunk from the back: `start` moved up by `amount`,
    /// which must not exceed the length.
    pub fn with_shrink_back(&self, amount: SpanValue) -> (r: Self)
        requires
            self.wf(),
            amount <= self.spec_len(),
        ensures
            r == self.spec_shrink_back(amount),
    {
        let mut shrunk = *self;
        shrunk.start = shrunk.start + amount;
        shrunk
    }

    /// Shrinks the span from the front: moves `end` back by `amount`, which
    /// must not exceed the length.
    pub fn shrink_front(&mut self, amount: SpanValue)
        requires
            old(self).wf(),
            amount <= old(self).spec_len(),
        ensures
            *final(self) == old(self).spec_shrink_front(amount),
    {
        self.end = self.end - amount;
    }

    /// Returns the span shrunk from the front: `end` moved back by `amount`,
    /// which must not exceed the length.
    pub fn with_shrink_front(&self, amount: SpanValue) -> (r: Self)
        requires
            self.wf(),
            amount <= self.spec_len(),
        ensures
            r == self.spec_shrink_front(amount),
    {
        let mut shrunk = *self;
        shrunk.end = shrunk.end - amount;
        shrunk
    }

    /// Gets the length of a `Span`.
    pub fn len(&self) -> (r: SpanValue)
        requires
            self.wf(),
        ensures
            r == self.spec_len(),
    {
        self.end - self.start
    }

    /// Checks whether the span covers no position.
    pub fn is_empty(&self) -> (r: bool)
        requires
            self.wf(),
        ensures
            r == (self.spec_len() == 0),
    {
        self.len() == 0
    }

    /// Returns the span as it was and collapses it to the empty span at its
    /// end: `start` becomes `end`.
    pub fn reset(&mut self) -> (r: Self)
        ensures
            r == *old(self),
            *final(self) == (Span { start: old(self).end, end: old(self).end }),
    {
        let span = *self;
        self.start = self.end;
        span
    }

    /// Applies the span to `string`, with `start` and `end` counted in
    /// characters. A span that ends exactly at the end of `string` applies;
    /// one that ends past it is left out by `requires`.
    pub fn apply<'a>(&self, string: &'a str) -> (r: &'a str)
        requires
            self.wf(),
            self.end <= string@.len(),
        ensures
            r@ == string@.subrange(self.start as int, self.end as int),
    {
        string.substring_char(self.start, self.end)
    }

    /// Applies the span to `string`, with `start` and `end` counted in bytes
    /// of its UTF-8 encoding. Both ends must fall on character boundaries.
    pub fn apply_bytes<'a>(&self, string: &'a str) -> (r: &'a str)
        requires
            self.wf(),
            self.end <= string.spec_bytes().len(),
            is_char_boundary(string.spec_bytes(), self.start as int),
            is_char_boundary(string.spec_bytes(), self.end as int),
        ensures
            r.spec_bytes() == string.spec_bytes().subrange(self.start as int, self.end as int),
    {
        let bytes = Ghost(string.spec_bytes());
        proof {
            encode_utf8_valid_utf8(string@);
            valid_utf8_split(bytes@, self.end as int);
        }
        let (head, _) = string.split_at(self.end);
        proof {
            let h = head.spec_bytes();
            assert(h == bytes@.subrange(0, self.end as int));
            if self.start == self.end {
                is_char_boundary_start_end_of_seq(h);
            } else if self.start > 0 {
                is_char_boundary_iff_not_is_continuation_byte(bytes@, self.start as int);
                is_char_boundary_iff_not_is_continuation_byte(h, self.start as int);
            }
        }
        let (_, r) = head.split_at(self.start);
        proof {
            assert(r.spec_bytes() =~= bytes@.subrange(self.start as int, self.end as int));
        }
        r
    }
}

/// The default span is the empty span at position 0.
impl Default for Span {
    fn default() -> (r: Span)
        ensures
            r == (Span { start: 0, end: 0 }),
    {
        Span::new()
    }
}

} // verus!
