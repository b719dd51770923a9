use udiab_search::highlight::{
    code_snippet_option, fallback_title_snippet, merge_span_list, rendered_snippet,
    title_snippet_choice, truncate_chars, Snippet, Span,
};

fn span(start: usize, end: usize) -> Span {
    Span { start, end }
}

#[test]
fn merge_joins_touching_spans() {
    let snippet = Snippet::new("abcdef".to_string(), vec![span(1, 2), span(2, 3)]);
    assert_eq!(snippet.fragments, "abcdef");
    assert_eq!(snippet.highlighted_positions, vec![span(1, 3)]);
}

#[test]
fn merge_keeps_separated_spans() {
    let snippet = Snippet::new("abcdef".to_string(), vec![span(0, 1), span(2, 3), span(5, 6)]);
    assert_eq!(
        snippet.highlighted_positions,
        vec![span(0, 1), span(2, 3), span(5, 6)]
    );
}

#[test]
fn merge_joins_runs_of_spans() {
    let merged = merge_span_list(&vec![
        span(0, 2),
        span(2, 4),
        span(4, 5),
        span(7, 8),
        span(8, 9),
    ]);
    assert_eq!(merged, vec![span(0, 5), span(7, 9)]);
}

#[test]
fn merge_of_empty_list_is_empty() {
    let merged = merge_span_list(&vec![]);
    assert!(merged.is_empty());
}

#[test]
fn merge_is_idempotent_on_examples() {
    let cases: Vec<Vec<Span>> = vec![
        vec![],
        vec![span(1, 2), span(2, 3)],
        vec![span(0, 4), span(4, 4), span(4, 7)],
        vec![span(3, 5), span(9, 9), span(9, 12), span(12, 13)],
    ];
    for case in cases {
        let once = merge_span_list(&case);
        let twice = merge_span_list(&once);
        assert_eq!(once, twice);
    }
}

#[test]
fn zero_length_span_at_start_is_kept_by_merge() {
    // A pathological zero-length match at position 0 merges with a
    // span starting there rather than disappearing.
    let merged = merge_span_list(&vec![span(0, 0), span(0, 2)]);
    assert_eq!(merged, vec![span(0, 2)]);
}

#[test]
fn truncate_keeps_short_text() {
    assert_eq!(truncate_chars("short", 32), "short");
    assert_eq!(truncate_chars("", 32), "");
}

#[test]
fn truncate_counts_characters_not_bytes() {
    // 40 three-byte characters are cut to exactly 32 characters.
    let long = "标".repeat(40);
    let cut = truncate_chars(&long, 32);
    assert_eq!(cut.chars().count(), 32);
    assert_eq!(cut, "标".repeat(32));
}

#[test]
fn fallback_title_is_truncated_and_unhighlighted() {
    let long = "题".repeat(50);
    let snippet = fallback_title_snippet(&long);
    assert_eq!(snippet.fragments.chars().count(), 32);
    assert!(snippet.highlighted_positions.is_empty());
    let short = fallback_title_snippet("A short title");
    assert_eq!(short.fragments, "A short title");
    assert!(short.highlighted_positions.is_empty());
}

#[test]
fn code_snippet_is_absent_iff_fragment_empty() {
    assert!(code_snippet_option(String::new(), vec![], 256).is_none());
    // Even a pathological zero-length match does not make an empty
    // fragment count as a code snippet.
    assert!(code_snippet_option(String::new(), vec![span(0, 0)], 256).is_none());
    let present = code_snippet_option("let x = 1;".to_string(), vec![span(4, 5)], 256).unwrap();
    assert_eq!(present.fragments, "let x = 1;");
    assert_eq!(present.highlighted_positions, vec![span(4, 5)]);
}

#[test]
fn rendered_snippet_keeps_normal_fragments() {
    let snippet = rendered_snippet("fn main() {}".to_string(), vec![span(3, 7)], 256);
    assert_eq!(snippet.fragments, "fn main() {}");
    assert_eq!(snippet.highlighted_positions, vec![span(3, 7)]);
}

#[test]
fn rendered_snippet_holds_fragment_to_its_limit() {
    // 300 characters with a span past the cut: the fragment is cut to
    // the limit and the span that no longer fits is dropped.
    let long = "x".repeat(300);
    let snippet = rendered_snippet(long, vec![span(0, 2), span(280, 284)], 256);
    assert_eq!(snippet.fragments.chars().count(), 256);
    assert_eq!(snippet.highlighted_positions, vec![span(0, 2)]);
}

#[test]
fn title_choice_renders_when_fragment_nonempty() {
    let got = title_snippet_choice(
        "a <b>title</b>".to_string(),
        vec![span(3, 4), span(4, 5)],
        Some("stored title".to_string()),
    )
    .unwrap();
    // The rendered fragment wins even though a stored title exists.
    assert_eq!(got.fragments, "a <b>title</b>");
    assert_eq!(got.highlighted_positions, vec![span(3, 5)]);
}

#[test]
fn title_choice_falls_back_exactly_on_empty_fragment() {
    // The trigger is the empty fragment alone, even with a pathological
    // zero-length match at position 0 in the raw highlight list.
    let got = title_snippet_choice(
        String::new(),
        vec![span(0, 0)],
        Some("标".repeat(50)),
    )
    .unwrap();
    assert_eq!(got.fragments.chars().count(), 32);
    assert!(got.highlighted_positions.is_empty());
}

#[test]
fn title_choice_fails_without_stored_title() {
    let got = title_snippet_choice(String::new(), vec![], None);
    assert!(got.is_err());
}
