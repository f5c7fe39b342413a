use sidecar_orchestration::output::{append_tail, truncate_output, OutputSink, OUTPUT_TAIL_CHARS};

#[test]
fn sink_keeps_most_recent_characters() {
    let mut sink = OutputSink::new(5);
    sink.append("abc");
    assert_eq!(sink.contents(), "abc");
    sink.append("defg");
    assert_eq!(sink.contents(), "cdefg");
    sink.append("");
    assert_eq!(sink.contents(), "cdefg");
}

#[test]
fn sink_is_bounded_suffix_of_everything_appended() {
    let mut sink = OutputSink::new(7);
    let mut all = String::new();
    for chunk in ["hello ", "wörld", "", "ünïcode tail", "x"] {
        sink.append(chunk);
        all.push_str(chunk);
        assert!(sink.contents().chars().count() <= 7);
        assert!(all.ends_with(sink.contents()));
    }
    assert_eq!(sink.contents(), "e tailx");
}

#[test]
fn truncation_counts_characters_not_bytes() {
    assert_eq!(truncate_output("héllo", 3), "llo");
    assert_eq!(truncate_output("héllo", 5), "héllo");
    assert_eq!(truncate_output("ééé", 2), "éé");
    assert_eq!(truncate_output("abc", 0), "");
}

#[test]
fn append_tail_starts_from_nothing() {
    assert_eq!(append_tail(&None, "abc", 2), "bc");
    assert_eq!(append_tail(&Some("xy".to_string()), "z", 8000), "xyz");
    let long = "a".repeat(OUTPUT_TAIL_CHARS + 10);
    assert_eq!(append_tail(&None, &long, OUTPUT_TAIL_CHARS).chars().count(), OUTPUT_TAIL_CHARS);
}
