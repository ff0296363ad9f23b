use pickprune::text::split_lines;

#[test]
fn splits_at_every_line_break() {
    assert_eq!(split_lines("a\nb\nc"), vec!["a", "b", "c"]);
}

#[test]
fn text_without_breaks_is_one_line() {
    assert_eq!(split_lines("one candidate"), vec!["one candidate"]);
}

#[test]
fn empty_text_is_one_empty_line() {
    assert_eq!(split_lines(""), vec![""]);
}

#[test]
fn adjacent_breaks_yield_empty_lines() {
    assert_eq!(split_lines("a\n\nb"), vec!["a", "", "b"]);
}

#[test]
fn trailing_break_yields_trailing_empty_line() {
    assert_eq!(split_lines("a\n"), vec!["a", ""]);
}

#[test]
fn split_lines_round_trips_with_join() {
    let text = "aaa111 fix bug\nbbb222 add feature";
    assert_eq!(split_lines(text).join("\n"), text);
}
