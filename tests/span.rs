use std::cmp::Ordering;
use std::ops::Range;

use text_span::{Span, SpanValue};

#[test]
fn new_is_empty_at_zero() {
    let s = Span::new();
    assert!(s.is_empty());
    assert_eq!(s, Span { start: 0, end: 0 });
    assert_eq!(s.len(), 0);
}

#[test]
fn default_is_new() {
    assert_eq!(Span::default(), Span::new());
}

#[test]
fn new_from_len() {
    assert_eq!(Span::new_from(3, 10).len(), 7);
    assert_eq!(Span::new_from(4, 4).len(), 0);
    assert!(Span::new_from(4, 4).is_empty());
    assert!(!Span::new_from(4, 5).is_empty());
    let s = Span::new_from(2, 9);
    assert_eq!(s.start, 2);
    assert_eq!(s.end, 9);
}

#[test]
fn new_from_largest_bounds() {
    let s = Span::new_from(0, SpanValue::MAX);
    assert_eq!(s.len(), SpanValue::MAX);
}

#[test]
fn grow_front_adds_to_len() {
    let s = Span::new_from(2, 5);
    let g = s.with_grow_front(4);
    assert_eq!(g, Span { start: 2, end: 9 });
    assert_eq!(g.len(), s.len() + 4);
    let mut m = s;
    m.grow_front(4);
    assert_eq!(m, g);
}

#[test]
fn grow_front_up_to_largest_value() {
    let s = Span::new_from(1, SpanValue::MAX - 3);
    assert_eq!(s.with_grow_front(3).end, SpanValue::MAX);
}

#[test]
fn grow_back_moves_start() {
    let s = Span::new_from(5, 8);
    let g = s.with_grow_back(3);
    assert_eq!(g, Span { start: 2, end: 8 });
    assert_eq!(g.len(), s.len() + 3);
    let mut m = s;
    m.grow_back(3);
    assert_eq!(m, g);
    assert_eq!(s.with_grow_back(5), Span { start: 0, end: 8 });
}

#[test]
fn shrink_back_moves_start_up() {
    let s = Span::new_from(2, 9);
    let r = s.with_shrink_back(3);
    assert_eq!(r, Span { start: 5, end: 9 });
    assert_eq!(r.len(), s.len() - 3);
    let mut m = s;
    m.shrink_back(3);
    assert_eq!(m, r);
    assert!(s.with_shrink_back(7).is_empty());
}

#[test]
fn shrink_front_moves_end_back() {
    let s = Span::new_from(2, 9);
    let r = s.with_shrink_front(4);
    assert_eq!(r, Span { start: 2, end: 5 });
    assert_eq!(r.len(), s.len() - 4);
    let mut m = s;
    m.shrink_front(4);
    assert_eq!(m, r);
    assert_eq!(s.with_shrink_front(7), Span { start: 2, end: 2 });
}

#[test]
fn reset_returns_old_and_collapses() {
    let mut s = Span { start: 2, end: 7 };
    let old = s.reset();
    assert_eq!(old, Span { start: 2, end: 7 });
    assert_eq!(s, Span { start: 7, end: 7 });
    assert!(s.is_empty());
}

#[test]
fn apply_by_characters() {
    assert_eq!(Span::new_from(1, 4).apply("hello"), "ell");
    assert_eq!(Span::new_from(0, 5).apply("hello"), "hello");
    assert_eq!(Span::new_from(3, 3).apply("hello"), "");
    assert_eq!(Span::new_from(5, 5).apply("hello"), "");
}

#[test]
fn apply_counts_characters_not_bytes() {
    let text = "héllo wörld";
    assert_eq!(Span::new_from(1, 4).apply(text), "éll");
    assert_eq!(Span::new_from(6, 11).apply(text), "wörld");
}

#[test]
fn apply_bytes_by_offsets() {
    assert_eq!(Span::new_from(1, 4).apply_bytes("hello"), "ell");
    let text = "héllo";
    assert_eq!(Span::new_from(1, 3).apply_bytes(text), "é");
    assert_eq!(Span::new_from(3, 6).apply_bytes(text), "llo");
    assert_eq!(Span::new_from(6, 6).apply_bytes(text), "");
}

#[test]
fn range_round_trip() {
    let s = Span::new_from(3, 11);
    let r: Range<SpanValue> = Range::from(s);
    assert_eq!(r, 3..11);
    assert_eq!(Span::from(r), s);
    assert_eq!(Span::from(0..0), Span::new());
}

#[test]
fn nested_spans_are_incomparable() {
    let outer = Span { start: 0, end: 5 };
    let inner = Span { start: 1, end: 3 };
    assert_eq!(outer.partial_cmp(&inner), None);
    assert_eq!(inner.partial_cmp(&outer), None);
    assert!(!(outer < inner));
    assert!(!(outer > inner));
}

#[test]
fn shared_end_orders_by_start() {
    let a = Span { start: 0, end: 3 };
    let b = Span { start: 1, end: 3 };
    assert_eq!(a.partial_cmp(&b), Some(Ordering::Less));
    assert_eq!(b.partial_cmp(&a), Some(Ordering::Greater));
    assert!(a < b);
}

#[test]
fn equal_spans_compare_equal() {
    let a = Span { start: 4, end: 9 };
    assert_eq!(a.partial_cmp(&a), Some(Ordering::Equal));
    assert!(a <= a);
}

#[test]
fn both_bounds_agree_on_direction() {
    let a = Span { start: 1, end: 4 };
    let b = Span { start: 2, end: 6 };
    assert_eq!(a.partial_cmp(&b), Some(Ordering::Less));
    assert_eq!(b.partial_cmp(&a), Some(Ordering::Greater));
    let c = Span { start: 1, end: 6 };
    assert_eq!(a.partial_cmp(&c), Some(Ordering::Less));
}
