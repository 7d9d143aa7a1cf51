use yotasm::span::{Location, Span, Spanned, Spanning};

#[test]
fn combine_takes_start_of_first_and_end_of_second() {
    let start = Span { file_id: 2, from: Location { offset: 3 }, to: Location { offset: 5 } };
    let end = Span { file_id: 2, from: Location { offset: 8 }, to: Location { offset: 13 } };
    assert_eq!(
        Span::combine(&start, &end),
        Span { file_id: 2, from: Location { offset: 3 }, to: Location { offset: 13 } }
    );
    assert_eq!(Span::combine(&start, &start), start);
}

#[test]
fn spanning_pairs_a_value_with_its_span() {
    let span = Span { file_id: 0, from: Location { offset: 1 }, to: Location { offset: 2 } };
    assert_eq!(7u64.spanning(span), Spanned { node: 7u64, span });
    assert_eq!("x".spanning(span), Spanned { node: "x", span });
    assert_eq!("y".to_string().spanning(span), Spanned { node: "y".to_string(), span });
    assert_eq!(9usize.spanning(span).span, span);
}
