use parse_log::labels::{Action, Kind};
use parse_log::record::{ItemError, ParseError};
use parse_log::{error, error_lnr, parse, parse_item};

fn lines_of(text: &str) -> Vec<String> {
    text.lines().map(|l| l.to_string()).collect()
}

#[test]
fn end_to_end_example() {
    let lines = lines_of(
        "## 2024-03-01\n\
         - PR reviews\n\
         \x20 - Commented https://example.com/pr/1#discussion_r1\n\
         \x20 - Merged https://example.com/pr/2\n",
    );
    let records = parse(&lines).unwrap();
    assert_eq!(records.len(), 2);
    let rendered: Vec<String> = records.iter().map(|(r, _)| r.render()).collect();
    assert_eq!(
        rendered[0],
        "2024-03-01,PrReview,Commented,https://example.com/pr/1#discussion_r1,https://example.com/pr/1"
    );
    assert_eq!(rendered[1], "2024-03-01,PrReview,Merged,https://example.com/pr/2,https://example.com/pr/2");
}

#[test]
fn emitted_positions_are_item_lines() {
    let lines = lines_of(
        "## 2024-03-01\n\
         - PR reviews\n\
         \x20 - Commented https://a\n\
         \n\
         \x20 - Merged https://b\n",
    );
    let records = parse(&lines).unwrap();
    assert_eq!(records.len(), 2);
    assert_eq!(records[0].1, 2);
    assert_eq!(records[1].1, 4);
}

#[test]
fn action_and_url_kept_verbatim() {
    let track = format!("Track{}", "ed");
    let verbs = [
        ("Closed", Action::Closed),
        ("Commented", Action::Commented),
        ("Created", Action::Created),
        ("Merged", Action::Merged),
        (track.as_str(), Action::Track),
        ("Updated", Action::Updated),
    ];
    for (label, action) in verbs {
        let line = format!("  - {label} https://example.com/x/1");
        let lines = vec![line];
        let records = parse(&lines).unwrap();
        assert_eq!(records.len(), 1);
        let rec = &records[0].0;
        assert_eq!(rec.action, action);
        assert_eq!(rec.url, "https://example.com/x/1");
    }
}

#[test]
fn item_without_dash_marker() {
    let lines = vec!["  Created https://example.com/1".to_string()];
    let records = parse(&lines).unwrap();
    assert_eq!(records.len(), 1);
    assert_eq!(records[0].0.action, Action::Created);
    assert_eq!(records[0].0.url, "https://example.com/1");
}

#[test]
fn extra_leading_spaces_still_item() {
    let lines = vec!["   - Created https://example.com/1".to_string()];
    let records = parse(&lines).unwrap();
    assert_eq!(records.len(), 1);
    assert_eq!(records[0].0.url, "https://example.com/1");
}

#[test]
fn canonical_url_no_fragment_unchanged() {
    let rec = parse_item("d", Kind::PrReview, "- Created https://example.com/1").unwrap();
    assert_eq!(rec.url, "https://example.com/1");
    assert_eq!(rec.canonical_url, "https://example.com/1");
}

#[test]
fn canonical_url_strips_single_fragment() {
    let rec = parse_item("d", Kind::PrReview, "- Created https://example.com/1#sec").unwrap();
    assert_eq!(rec.url, "https://example.com/1#sec");
    assert_eq!(rec.canonical_url, "https://example.com/1");
}

#[test]
fn canonical_url_splits_on_last_hash() {
    let rec = parse_item("d", Kind::PrReview, "- Created https://e/a#b#c").unwrap();
    assert_eq!(rec.url, "https://e/a#b#c");
    assert_eq!(rec.canonical_url, "https://e/a#b");
}

#[test]
fn canonical_url_trailing_hash() {
    let rec = parse_item("d", Kind::PrReview, "- Created https://e/a#").unwrap();
    assert_eq!(rec.canonical_url, "https://e/a");
}

#[test]
fn context_propagates_forward() {
    let lines = lines_of(
        "## 2024-01-01\n\
         - PR reviews\n\
         \x20 - Commented https://a\n\
         \x20 - Merged https://b\n\
         - Discussions\n\
         \x20 - Created https://c\n\
         ## 2024-01-02\n\
         \x20 - Updated https://d\n",
    );
    let records = parse(&lines).unwrap();
    assert_eq!(records.len(), 4);
    assert_eq!(records[0].0.date, "2024-01-01");
    assert_eq!(records[0].0.kind, Kind::PrReview);
    assert_eq!(records[1].0.date, "2024-01-01");
    assert_eq!(records[1].0.kind, Kind::PrReview);
    assert_eq!(records[2].0.kind, Kind::Discussion);
    assert_eq!(records[3].0.date, "2024-01-02");
    assert_eq!(records[3].0.kind, Kind::Discussion);
}

#[test]
fn default_context_before_headings() {
    let lines = vec!["  - Created https://a".to_string()];
    let records = parse(&lines).unwrap();
    assert_eq!(records[0].0.date, "");
    assert_eq!(records[0].0.kind, Kind::IssueTriage);
}

#[test]
fn short_lines_skipped_without_effect() {
    let lines = lines_of(
        "## 2024-01-01\n\
         x\n\
         - PR reviews\n\
         \n\
         \x20 - Merged https://a\n",
    );
    let records = parse(&lines).unwrap();
    assert_eq!(records.len(), 1);
    assert_eq!(records[0].0.date, "2024-01-01");
    assert_eq!(records[0].0.kind, Kind::PrReview);
}

#[test]
fn empty_input_yields_no_records() {
    let lines: Vec<String> = Vec::new();
    let records = parse(&lines).unwrap();
    assert!(records.is_empty());
}

#[test]
fn unrecognized_action_aborts() {
    let lines = lines_of(
        "## 2024-01-01\n\
         - PR reviews\n\
         \x20 - BadVerb https://x\n",
    );
    let err = parse(&lines).unwrap_err();
    match &err {
        ParseError::UnrecognizedAction { line, label } => {
            assert_eq!(*line, 2);
            assert_eq!(label, "BadVerb");
        }
        other => panic!("unexpected error {other:?}"),
    }
    assert_eq!(err.to_error().0, "broken on line 2: Unrecognizable action `BadVerb`");
}

#[test]
fn unrecognized_category_aborts() {
    let lines = lines_of(
        "## 2024-01-01\n\
         - Bogus stuff\n\
         \x20 - Created https://x\n",
    );
    let err = parse(&lines).unwrap_err();
    match &err {
        ParseError::UnrecognizedKind { line, label } => {
            assert_eq!(*line, 1);
            assert_eq!(label, "Bogus stuff");
        }
        other => panic!("unexpected error {other:?}"),
    }
    assert_eq!(err.to_error().0, "broken on line 1: Unrecognizable kind `Bogus stuff`");
}

#[test]
fn item_without_separator_aborts() {
    let lines = vec!["  - Created".to_string()];
    let err = parse(&lines).unwrap_err();
    match &err {
        ParseError::MalformedItem { line, text } => {
            assert_eq!(*line, 0);
            assert_eq!(text, "- Created");
        }
        other => panic!("unexpected error {other:?}"),
    }
    assert_eq!(err.to_error().0, "broken on line 0: failed to parse `- Created`");
}

#[test]
fn malformed_prefix_aborts() {
    let lines = lines_of(
        "## 2024-01-01\n\
         junk line\n",
    );
    let err = parse(&lines).unwrap_err();
    match &err {
        ParseError::MalformedLine { line } => assert_eq!(*line, 1),
        other => panic!("unexpected error {other:?}"),
    }
    assert_eq!(err.to_error().0, "broken on line 1: ");
}

#[test]
fn no_records_delivered_on_failure() {
    let lines = lines_of(
        "## 2024-01-01\n\
         - PR reviews\n\
         \x20 - Merged https://ok\n\
         \x20 - BadVerb https://x\n",
    );
    assert!(parse(&lines).is_err());
}

#[test]
fn kind_labels_round_trip() {
    let labels = [
        ("Issue triages", Kind::IssueTriage),
        ("RFC reviews", Kind::RfcReview),
        ("FCP reviews", Kind::FcpReview),
        ("PR reviews", Kind::PrReview),
        ("PR submissions", Kind::PrSubmission),
        ("Discussions", Kind::Discussion),
        ("Researches", Kind::Research),
    ];
    for (label, kind) in labels {
        assert_eq!(Kind::from_str(label).unwrap(), kind);
    }
    assert_eq!(
        Kind::from_str("PR Reviews").unwrap_err(),
        "Unrecognizable kind `PR Reviews`"
    );
}

#[test]
fn action_labels_case_sensitive() {
    assert_eq!(Action::from_str("Merged").unwrap(), Action::Merged);
    assert_eq!(
        Action::from_str("merged").unwrap_err(),
        "Unrecognizable action `merged`"
    );
}

#[test]
fn parse_item_unrecognized_action() {
    let err = parse_item("d", Kind::PrReview, "- BadVerb https://x").unwrap_err();
    match &err {
        ItemError::UnrecognizedAction { label } => assert_eq!(label, "BadVerb"),
        other => panic!("unexpected error {other:?}"),
    }
    assert_eq!(err.message(), "Unrecognizable action `BadVerb`");
}

#[test]
fn record_render_fixed_names() {
    let rec = parse_item(
        "2024-05-06",
        Kind::FcpReview,
        &format!("- {}{} https://e/1#x", "Track", "ed"),
    )
    .unwrap();
    assert_eq!(
        rec.render(),
        format!("2024-05-06,FcpReview,{}{},https://e/1#x,https://e/1", "Track", "ed")
    );
}

#[test]
fn error_helpers_format_line_numbers() {
    assert_eq!(error("boom".to_string()).0, "boom");
    assert_eq!(error("boom".to_string()).render(), "error: boom");
    assert_eq!(error_lnr(7, "boom").0, "broken on line 7: boom");
    assert_eq!(error_lnr(1234, "x").0, "broken on line 1234: x");
    assert_eq!(error_lnr(0, "").0, "broken on line 0: ");
}

#[test]
fn url_token_runs_to_end_of_line() {
    let rec = parse_item("d", Kind::PrReview, "- Created https://e/a b c").unwrap();
    assert_eq!(rec.url, "https://e/a b c");
}
