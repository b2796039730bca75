use wrought::ast::{MBox, Place, Span, M};

#[test]
fn span_keeps_offset_and_length() {
    let span = Span::new(3, 4);
    assert_eq!(span.offset(), 3);
    assert_eq!(span.len(), 4);
    assert!(!span.is_empty());
    assert!(Span::new(9, 0).is_empty());
}

#[test]
fn merge_runs_from_left_start_through_right_end() {
    let left = Span::new(4, 3);
    let right = Span::new(10, 5);
    assert_eq!(Span::merge(left, right), Some(Span::new(4, 11)));
}

#[test]
fn merge_of_a_span_with_itself_is_that_span() {
    let span = Span::new(7, 2);
    assert_eq!(Span::merge(span, span), Some(span));
}

#[test]
fn merge_accepts_right_ending_where_left_starts() {
    assert_eq!(Span::merge(Span::new(5, 9), Span::new(2, 3)), Some(Span::new(5, 0)));
}

#[test]
fn merge_refuses_right_ending_before_left_starts() {
    assert_eq!(Span::merge(Span::new(5, 1), Span::new(0, 4)), None);
}

#[test]
fn merge_refuses_an_end_beyond_the_largest_offset() {
    assert_eq!(Span::merge(Span::new(0, 1), Span::new(usize::MAX, 1)), None);
    assert_eq!(
        Span::merge(Span::new(1, 1), Span::new(usize::MAX - 1, 1)),
        Some(Span::new(1, usize::MAX - 1))
    );
}

#[test]
fn wrapper_carries_value_and_span() {
    let m = M::new(42u32, Span::new(1, 2));
    assert_eq!(m.value, 42);
    assert_eq!(m.span, Span::new(1, 2));
    assert_eq!(m.clone(), m);
}

#[test]
fn wrapper_new_range_merges_spans() {
    let m = M::new_range("sum", Span::new(2, 1), Span::new(6, 4));
    assert_eq!(m.value, "sum");
    assert_eq!(m.span, Span::new(2, 8));
    assert_eq!(m.span.offset(), 2);
    assert_eq!(m.span.len(), 6 + 4 - 2);
}

#[test]
fn boxed_wrapper_carries_value_and_span() {
    let m = MBox::new(String::from("node"), Span::new(0, 4));
    assert_eq!(*m.value, "node");
    assert_eq!(m.span, Span::new(0, 4));
}

#[test]
fn boxed_wrapper_new_range_merges_spans() {
    let m = MBox::new_range(7u8, Span::new(10, 2), Span::new(20, 1));
    assert_eq!(*m.value, 7);
    assert_eq!(m.span, Span::new(10, 11));
}

#[test]
fn place_holds_its_identifier() {
    let place = Place::Identifier { ident: M::new(String::from("foobar"), Span::new(0, 6)) };
    let Place::Identifier { ident } = place.clone();
    assert_eq!(ident.value, "foobar");
    assert_eq!(ident.span, Span::new(0, 6));
    assert_eq!(place, place.clone());
}
