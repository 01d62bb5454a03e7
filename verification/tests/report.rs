use pr_report::model::{CheckRun, MergeableState, PrEntry, PullRequest, Review, ReviewState};
use pr_report::numfmt::{parse_u64, u64_to_string};
use pr_report::report::{last_sha, qualifies, summarize, summarize_now, SIXTY_DAYS_SECS};
use pr_report::table::MarkdownTable;

fn pr(number: u64, draft: Option<bool>, updated_at: Option<i64>) -> PullRequest {
    PullRequest {
        number,
        html_url: format!("https://example.test/pr/{}", number),
        author: Some("alice".to_string()),
        draft,
        updated_at,
        mergeable_state: Some(MergeableState::Clean),
    }
}

fn entry(p: PullRequest) -> PrEntry {
    PrEntry {
        pr: p,
        check_runs: vec![CheckRun {
            conclusion: Some("success".to_string()),
            status: Some("completed".to_string()),
        }],
        reviews: vec![Review {
            user: Some("bob".to_string()),
            state: Some(ReviewState::Approved),
        }],
    }
}

#[test]
fn fresh_non_draft_qualifies() {
    assert!(qualifies(&pr(1, Some(false), Some(1_000)), 2_000));
}

#[test]
fn draft_is_excluded() {
    assert!(!qualifies(&pr(1, Some(true), Some(1_000)), 2_000));
}

#[test]
fn unknown_draft_flag_is_excluded() {
    assert!(!qualifies(&pr(1, None, Some(1_000)), 2_000));
}

#[test]
fn updated_sixty_days_ago_still_qualifies() {
    assert!(qualifies(&pr(1, Some(false), Some(0)), SIXTY_DAYS_SECS));
}

#[test]
fn older_than_sixty_days_is_excluded() {
    assert!(!qualifies(&pr(1, Some(false), Some(0)), SIXTY_DAYS_SECS + 1));
}

#[test]
fn summarize_renders_qualifying_rows_only() {
    let entries = vec![
        entry(pr(7, Some(false), Some(1_000))),
        entry(pr(8, Some(true), Some(1_000))),
        entry(pr(9, Some(false), Some(0))),
    ];
    let text = summarize(&entries, SIXTY_DAYS_SECS + 500);
    let expected = "| PR | Author | Mergeable | Review state |\n\
                    | --- | --- | --- | --- |\n\
                    | [#7](https://example.test/pr/7) \u{1F7E2} | alice | Clean | Approved by bob |\n";
    assert_eq!(text, expected);
}

#[test]
fn summarize_with_no_entries_is_headers_only() {
    let entries: Vec<PrEntry> = Vec::new();
    let text = summarize(&entries, 0);
    let expected = "| PR | Author | Mergeable | Review state |\n| --- | --- | --- | --- |\n";
    assert_eq!(text, expected);
}

#[test]
fn summarize_pending_and_failed_dots() {
    let mut pending = entry(pr(1, Some(false), Some(1_000)));
    pending.check_runs = vec![CheckRun {
        conclusion: None,
        status: Some("in_progress".to_string()),
    }];
    let mut failed = entry(pr(2, Some(false), Some(1_000)));
    failed.check_runs = vec![CheckRun {
        conclusion: Some("failure".to_string()),
        status: Some("completed".to_string()),
    }];
    let text = summarize(&vec![pending, failed], 2_000);
    assert!(text.contains("[#1](https://example.test/pr/1) \u{1F7E1}"));
    assert!(text.contains("[#2](https://example.test/pr/2) \u{1F534}"));
}

#[test]
fn summarize_missing_fields_fall_back() {
    let mut e = entry(PullRequest {
        number: 3,
        html_url: "u".to_string(),
        author: None,
        draft: Some(false),
        updated_at: Some(1_000),
        mergeable_state: None,
    });
    e.reviews = Vec::new();
    let text = summarize(&vec![e], 1_000);
    assert_eq!(
        text,
        "| PR | Author | Mergeable | Review state |\n| --- | --- | --- | --- |\n\
         | [#3](u) \u{1F7E2} |  | Unknown | Needs review |\n"
    );
}

#[test]
fn summarize_now_reports_header_at_some_instant() {
    let entries: Vec<PrEntry> = Vec::new();
    let (text, now) = summarize_now(&entries);
    assert_eq!(
        text,
        "| PR | Author | Mergeable | Review state |\n| --- | --- | --- | --- |\n"
    );
    assert!(now > 0);
}

#[test]
fn table_render_layout() {
    let mut t = MarkdownTable::new();
    t.set_titles(vec!["A".to_string(), "B".to_string()]);
    t.add_row(vec!["1".to_string(), "2".to_string()]);
    t.add_row(vec!["x".to_string(), "y".to_string()]);
    assert_eq!(
        t.render(),
        "| A | B |\n| --- | --- |\n| 1 | 2 |\n| x | y |\n"
    );
}

#[test]
fn number_rendering_is_decimal() {
    assert_eq!(u64_to_string(0), "0");
    assert_eq!(u64_to_string(42), "42");
    assert_eq!(u64_to_string(1_234_567_890), "1234567890");
    assert_eq!(u64_to_string(u64::MAX), "18446744073709551615");
}

#[test]
fn number_parsing_round_trips() {
    assert_eq!(parse_u64("0"), Some(0));
    assert_eq!(parse_u64("42"), Some(42));
    assert_eq!(parse_u64("18446744073709551615"), Some(u64::MAX));
    assert_eq!(parse_u64("18446744073709551616"), None);
    assert_eq!(parse_u64(""), None);
    assert_eq!(parse_u64("12a"), None);
    assert_eq!(parse_u64("-1"), None);
}

#[test]
fn last_sha_takes_the_last_commit() {
    let shas = vec!["aaa".to_string(), "bbb".to_string()];
    assert_eq!(last_sha(&shas), Some("bbb".to_string()));
    assert_eq!(last_sha(&Vec::new()), None);
}
