use html_renderer::span::NANOS_PER_SEC;
use html_renderer::TimeSpan;

#[test]
fn a_span_of_whole_seconds_has_no_sub_second_part() {
    let span = TimeSpan::from_secs(15);
    assert_eq!(span.as_secs(), 15);
    assert_eq!(span.subsec_nanos(), 0);
    assert_eq!(TimeSpan::from_secs(0).as_secs(), 0);
}

#[test]
fn a_span_is_made_of_seconds_and_nanoseconds() {
    let span = TimeSpan::new(7, 250_000_000).unwrap();
    assert_eq!(span.as_secs(), 7);
    assert_eq!(span.subsec_nanos(), 250_000_000);
    assert_eq!(TimeSpan::new(7, 0), Some(TimeSpan::from_secs(7)));
}

#[test]
fn a_sub_second_part_of_a_second_or_more_is_refused() {
    assert_eq!(NANOS_PER_SEC, 1_000_000_000);
    assert!(TimeSpan::new(0, 999_999_999).is_some());
    assert_eq!(TimeSpan::new(0, 1_000_000_000), None);
    assert_eq!(TimeSpan::new(3, u32::MAX), None);
}

#[test]
fn the_largest_span_is_accepted() {
    let span = TimeSpan::new(u64::MAX, 999_999_999).unwrap();
    assert_eq!(span.as_secs(), u64::MAX);
    assert_eq!(span.subsec_nanos(), 999_999_999);
}

#[test]
fn spans_are_equal_when_their_parts_are() {
    assert_eq!(TimeSpan::new(2, 0).unwrap(), TimeSpan::from_secs(2));
    assert_ne!(TimeSpan::new(2, 1).unwrap(), TimeSpan::from_secs(2));
    assert_ne!(TimeSpan::from_secs(14), TimeSpan::from_secs(15));
    let span = TimeSpan::new(9, 99).unwrap();
    let copy = span;
    assert_eq!(copy, span);
}
