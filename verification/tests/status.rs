use pr_report::model::{CheckRun, CheckStatus, MergeableState, Review, ReviewState};
use pr_report::status::{check_status, review_label, to_better_state};

fn run(conclusion: Option<&str>, status: Option<&str>) -> CheckRun {
    CheckRun {
        conclusion: conclusion.map(|s| s.to_string()),
        status: status.map(|s| s.to_string()),
    }
}

#[test]
fn check_status_all_success_is_passed() {
    let runs = vec![
        run(Some("success"), Some("completed")),
        run(Some("success"), Some("completed")),
    ];
    assert_eq!(check_status(&runs), CheckStatus::Passed);
}

#[test]
fn check_status_empty_is_passed() {
    let runs: Vec<CheckRun> = Vec::new();
    assert_eq!(check_status(&runs), CheckStatus::Passed);
}

#[test]
fn check_status_incomplete_is_pending() {
    let runs = vec![
        run(Some("success"), Some("completed")),
        run(None, Some("in_progress")),
    ];
    assert_eq!(check_status(&runs), CheckStatus::Pending);
}

#[test]
fn check_status_missing_status_counts_incomplete() {
    let runs = vec![run(Some("failure"), None)];
    assert_eq!(check_status(&runs), CheckStatus::Pending);
}

#[test]
fn check_status_completed_failure_is_failed() {
    let runs = vec![
        run(Some("success"), Some("completed")),
        run(Some("failure"), Some("completed")),
    ];
    assert_eq!(check_status(&runs), CheckStatus::Failed);
}

fn review(user: Option<&str>, state: Option<ReviewState>) -> Review {
    Review {
        user: user.map(|s| s.to_string()),
        state,
    }
}

#[test]
fn review_label_defaults_to_needs_review() {
    let reviews: Vec<Review> = Vec::new();
    assert_eq!(review_label(&reviews), "Needs review");
}

#[test]
fn review_label_skips_open_and_pending() {
    let reviews = vec![
        review(Some("carol"), Some(ReviewState::Open)),
        review(Some("dave"), Some(ReviewState::Pending)),
        review(Some("alice"), Some(ReviewState::Approved)),
        review(Some("bob"), Some(ReviewState::ChangesRequested)),
    ];
    assert_eq!(review_label(&reviews), "Approved by alice");
}

#[test]
fn review_label_all_pending_is_needs_review() {
    let reviews = vec![
        review(Some("carol"), Some(ReviewState::Open)),
        review(Some("dave"), Some(ReviewState::Pending)),
    ];
    assert_eq!(review_label(&reviews), "Needs review");
}

#[test]
fn review_label_changes_requested() {
    let reviews = vec![review(Some("bob"), Some(ReviewState::ChangesRequested))];
    assert_eq!(review_label(&reviews), "Changes requested by bob");
}

#[test]
fn review_label_commented_without_user() {
    let reviews = vec![review(None, Some(ReviewState::Commented))];
    assert_eq!(review_label(&reviews), "Commented");
}

#[test]
fn review_label_dismissed_has_no_user() {
    let reviews = vec![review(Some("erin"), Some(ReviewState::Dismissed))];
    assert_eq!(review_label(&reviews), "Dismissed");
}

#[test]
fn review_label_stateless_review_is_needs_review() {
    let reviews = vec![review(Some("erin"), None)];
    assert_eq!(review_label(&reviews), "Needs review");
}

#[test]
fn mergeable_state_labels() {
    assert_eq!(to_better_state(&MergeableState::Dirty), "Conflicts");
    assert_eq!(to_better_state(&MergeableState::Blocked), "No");
    assert_eq!(to_better_state(&MergeableState::Unknown), "No");
    assert_eq!(to_better_state(&MergeableState::Behind), "Behind");
    assert_eq!(to_better_state(&MergeableState::Clean), "Clean");
    assert_eq!(to_better_state(&MergeableState::Draft), "Draft");
    assert_eq!(to_better_state(&MergeableState::HasHooks), "HasHooks");
    assert_eq!(to_better_state(&MergeableState::Unstable), "Unstable");
}
