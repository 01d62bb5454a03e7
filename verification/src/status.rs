//! Classification of check runs and review lists.

use vstd::prelude::*;
use crate::model::{CheckRun, CheckStatus, MergeableState, Review, ReviewState};

verus! {

/// A check run counts as successful when its reported conclusion is the
/// string `success`.
pub open spec fn run_success(r: CheckRun) -> bool {
    match r.conclusion {
        Some(c) => c@ == "success"@,
        None => false,
    }
}

/// A check run counts as completed when its reported status is the string
/// `completed`.
pub open spec fn run_completed(r: CheckRun) -> bool {
    match r.status {
        Some(s) => s@ == "completed"@,
        None => false,
    }
}

pub open spec fn all_success(runs: Seq<CheckRun>) -> bool {
    forall|i: int| 0 <= i < runs.len() ==> run_success(#[trigger] runs[i])
}

pub open spec fn any_incomplete(runs: Seq<CheckRun>) -> bool {
    exists|i: int| 0 <= i < runs.len() && !run_completed(#[trigger] runs[i])
}

proof fn lemma_all_success_push(s: Seq<CheckRun>, x: CheckRun)
    ensures
        all_success(s.push(x)) == (all_success(s) && run_success(x)),
{
    assert(s.push(x)[s.len() as int] == x);
    if all_success(s) && run_success(x) {
        assert forall|i: int| 0 <= i < s.push(x).len() implies run_success(#[trigger] s.push(x)[i]) by {
            if i < s.len() {
                assert(s.push(x)[i] == s[i]);
            }
        }
    }
    if all_success(s.push(x)) {
        assert forall|i: int| 0 <= i < s.len() implies run_success(#[trigger] s[i]) by {
            assert(s.push(x)[i] == s[i]);
        }
    }
}

proof fn lemma_any_incomplete_push(s: Seq<CheckRun>, x: CheckRun)
    ensures
        any_incomplete(s.push(x)) == (any_incomplete(s) || !run_completed(x)),
{
    assert(s.push(x)[s.len() as int] == x);
    if any_incomplete(s) {
        let i = choose|i: int| 0 <= i < s.len() && !run_completed(#[trigger] s[i]);
        assert(s.push(x)[i] == s[i]);
    }
    if any_incomplete(s.push(x)) && run_completed(x) {
        let i = choose|i: int| 0 <= i < s.push(x).len() && !run_completed(#[trigger] s.push(x)[i]);
        assert(i < s.len() && s.push(x)[i] == s[i]);
    }
}

/// Classifies a commit's check runs: `Passed` exactly when every run
/// concluded with success, `Pending` exactly when they did not all succeed
/// but some run has not completed, and `Failed` otherwise.
pub fn check_status(runs: &Vec<CheckRun>) -> (s: CheckStatus)
    ensures
        (s == CheckStatus::Passed) == all_success(runs@),
        (s == CheckStatus::Pending) == (!all_success(runs@) && any_incomplete(runs@)),
        (s == CheckStatus::Failed) == (!all_success(runs@) && !any_incomplete(runs@)),
{
    let success = String::from_str("success");
    let completed = String::from_str("completed");
    let mut passed = true;
    let mut incomplete = false;
    let mut i: usize = 0;
    while i < runs.len()
        invariant
            0 <= i <= runs.len(),
            success@ == "success"@,
            completed@ == "completed"@,
            passed == all_success(runs@.subrange(0, i as int)),
            incomplete == any_incomplete(runs@.subrange(0, i as int)),
        decreases runs.len() - i,
    {
        let run = &runs[i];
        let ok = match &run.conclusion {
            Some(c) => c.eq(&success),
            None => false,
        };
        let done = match &run.status {
            Some(st) => st.eq(&completed),
            None => false,
        };
        proof {
            assert(runs@.subrange(0, i + 1) =~= runs@.subrange(0, i as int).push(runs@[i as int]));
            assert(ok == run_success(runs@[i as int]));
            assert(done == run_completed(runs@[i as int]));
            lemma_all_success_push(runs@.subrange(0, i as int), runs@[i as int]);
            lemma_any_incomplete_push(runs@.subrange(0, i as int), runs@[i as int]);
        }
        passed = passed && ok;
        incomplete = incomplete || !done;
        i = i + 1;
    }
    proof {
        assert(runs@.subrange(0, runs@.len() as int) =~= runs@);
    }
    if passed {
        CheckStatus::Passed
    } else if incomplete {
        CheckStatus::Pending
    } else {
        CheckStatus::Failed
    }
}

/// A review is decisive when its state is neither `Open` nor `Pending`;
/// a review without a reported state counts as decisive.
pub open spec fn decisive(r: Review) -> bool {
    !(r.state == Some(ReviewState::Open) || r.state == Some(ReviewState::Pending))
}

/// The first decisive review at or after position `i`, in listing order.
pub open spec fn first_decisive_from(reviews: Seq<Review>, i: int) -> Option<Review>
    decreases reviews.len() - i,
{
    if i < 0 || i >= reviews.len() {
        None
    } else if decisive(reviews[i]) {
        Some(reviews[i])
    } else {
        first_decisive_from(reviews, i + 1)
    }
}

/// The first decisive review of the list, in listing order.
pub open spec fn first_decisive(reviews: Seq<Review>) -> Option<Review> {
    first_decisive_from(reviews, 0)
}

/// The ` by <login>` suffix of a review label; empty when no login is
/// known.
pub open spec fn by_part(user: Option<String>) -> Seq<char> {
    match user {
        Some(u) => " by "@ + u@,
        None => Seq::<char>::empty(),
    }
}

/// The label a decisive review contributes to the table.
pub open spec fn label_of(r: Review) -> Seq<char> {
    match r.state {
        Some(ReviewState::Approved) => "Approved"@ + by_part(r.user),
        Some(ReviewState::ChangesRequested) => "Changes requested"@ + by_part(r.user),
        Some(ReviewState::Commented) => "Commented"@ + by_part(r.user),
        Some(ReviewState::Dismissed) => "Dismissed"@,
        None => "Needs review"@,
        Some(ReviewState::Open) => "Needs review"@,
        Some(ReviewState::Pending) => "Needs review"@,
    }
}

/// The review-state label of a pull request: the label of the first
/// decisive review, or `Needs review` when no review is decisive.
pub open spec fn review_label_spec(reviews: Seq<Review>) -> Seq<char> {
    match first_decisive(reviews) {
        Some(r) => label_of(r),
        None => "Needs review"@,
    }
}

fn by_suffix(user: &Option<String>) -> (s: String)
    ensures
        s@ == by_part(*user),
{
    match user {
        Some(u) => {
            let mut s = String::from_str(" by ");
            s.append(u.as_str());
            s
        },
        None => String::new(),
    }
}

fn label_of_exec(r: &Review) -> (s: String)
    ensures
        s@ == label_of(*r),
{
    match r.state {
        Some(ReviewState::Approved) => {
            let mut s = String::from_str("Approved");
            let suffix = by_suffix(&r.user);
            s.append(suffix.as_str());
            s
        },
        Some(ReviewState::ChangesRequested) => {
            let mut s = String::from_str("Changes requested");
            let suffix = by_suffix(&r.user);
            s.append(suffix.as_str());
            s
        },
        Some(ReviewState::Commented) => {
            let mut s = String::from_str("Commented");
            let suffix = by_suffix(&r.user);
            s.append(suffix.as_str());
            s
        },
        Some(ReviewState::Dismissed) => String::from_str("Dismissed"),
        None => String::from_str("Needs review"),
        Some(ReviewState::Open) => String::from_str("Needs review"),
        Some(ReviewState::Pending) => String::from_str("Needs review"),
    }
}

/// Scans the reviews in listing order and labels the first decisive one;
/// yields `Needs review` when every review is still open or pending, or
/// when there are none.
pub fn review_label(reviews: &Vec<Review>) -> (s: String)
    ensures
        s@ == review_label_spec(reviews@),
{
    let mut i: usize = 0;
    while i < reviews.len()
        invariant
            0 <= i <= reviews.len(),
            first_decisive(reviews@) == first_decisive_from(reviews@, i as int),
        decreases reviews.len() - i,
    {
        let r = &reviews[i];
        let is_decisive = match r.state {
            Some(ReviewState::Open) => false,
            Some(ReviewState::Pending) => false,
            _ => true,
        };
        if is_decisive {
            return label_of_exec(r);
        }
        i = i + 1;
    }
    String::from_str("Needs review")
}

/// Display label of a merge-readiness state: merge conflicts read
/// `Conflicts`, blocked and undetermined states read `No`, and the rest
/// keep their own name.
pub open spec fn better_state(state: MergeableState) -> Seq<char> {
    match state {
        MergeableState::Dirty => "Conflicts"@,
        MergeableState::Blocked => "No"@,
        MergeableState::Unknown => "No"@,
        MergeableState::Behind => "Behind"@,
        MergeableState::Clean => "Clean"@,
        MergeableState::Draft => "Draft"@,
        MergeableState::HasHooks => "HasHooks"@,
        MergeableState::Unstable => "Unstable"@,
    }
}

/// Renders a merge-readiness state for the table.
pub fn to_better_state(state: &MergeableState) -> (s: String)
    ensures
        s@ == better_state(*state),
{
    match state {
        MergeableState::Dirty => String::from_str("Conflicts"),
        MergeableState::Blocked => String::from_str("No"),
        MergeableState::Unknown => String::from_str("No"),
        MergeableState::Behind => String::from_str("Behind"),
        MergeableState::Clean => String::from_str("Clean"),
        MergeableState::Draft => String::from_str("Draft"),
        MergeableState::HasHooks => String::from_str("HasHooks"),
        MergeableState::Unstable => String::from_str("Unstable"),
    }
}

} // verus!
