//! Plain data carried through the report pipeline.
//!
//! Values of these types are filled from the code-hosting service's
//! responses before the library sees them; the library itself only decides
//! and formats.

use vstd::prelude::*;

verus! {

/// One CI check run attached to a commit. `conclusion` and `status` hold the
/// reported string when the service sent one, and `None` when the field was
/// absent or not a string.
pub struct CheckRun {
    pub conclusion: Option<String>,
    pub status: Option<String>,
}

/// Overall classification of a commit's check runs.
#[derive(Clone, Copy, Debug, PartialEq, Eq, Structural)]
pub enum CheckStatus {
    Passed,
    Pending,
    Failed,
}

/// State of a single pull-request review, as the service reports it.
#[derive(Clone, Copy, Debug, PartialEq, Eq, Structural)]
pub enum ReviewState {
    Approved,
    ChangesRequested,
    Commented,
    Dismissed,
    Pending,
    Open,
}

/// One review of a pull request: the login of whoever wrote it, when
/// known, and its state, when the service reported one.
pub struct Review {
    pub user: Option<String>,
    pub state: Option<ReviewState>,
}

/// The service's merge-readiness indicator for a pull request.
#[derive(Clone, Copy, Debug, PartialEq, Eq, Structural)]
pub enum MergeableState {
    Behind,
    Blocked,
    Clean,
    Dirty,
    Draft,
    HasHooks,
    Unknown,
    Unstable,
}

/// The fields of a pull request that the report reads. Timestamps are in
/// seconds since the Unix epoch; optional fields are `None` when the
/// service left them out.
pub struct PullRequest {
    pub number: u64,
    pub html_url: String,
    pub author: Option<String>,
    pub draft: Option<bool>,
    pub updated_at: Option<i64>,
    pub mergeable_state: Option<MergeableState>,
}

/// Everything gathered about one pull request: the request itself, the
/// check runs of its last commit, and its reviews in listing order.
pub struct PrEntry {
    pub pr: PullRequest,
    pub check_runs: Vec<CheckRun>,
    pub reviews: Vec<Review>,
}

} // verus!
