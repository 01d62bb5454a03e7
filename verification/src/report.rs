//! The report pipeline: which pull requests appear, what their row says,
//! and the rendered table.

use vstd::prelude::*;
use crate::model::{CheckRun, CheckStatus, MergeableState, PrEntry, PullRequest};
use crate::numfmt::{dec_rep, u64_to_string};
use crate::status::{
    all_success, any_incomplete, better_state, check_status, review_label, review_label_spec,
    to_better_state,
};
use crate::table::{table_text, MarkdownTable};

verus! {

/// Number of seconds in the sixty-day window a pull request must have been
/// updated within to appear in the report.
pub const SIXTY_DAYS_SECS: i64 = 60 * 60 * 24 * 60;

/// A pull request qualifies for the report when it is known not to be a
/// draft and its last update lies within the sixty-day window ending at
/// `now` (both in seconds since the Unix epoch).
pub open spec fn qualifies_spec(pr: PullRequest, now: int) -> bool {
    pr.draft == Some(false) && match pr.updated_at {
        Some(t) => now - t <= SIXTY_DAYS_SECS,
        None => false,
    }
}

/// Decides whether a pull request belongs in the report: drafts, pull
/// requests whose draft or update-time field is missing, and pull requests
/// not updated within the last sixty days are excluded.
pub fn qualifies(pr: &PullRequest, now: i64) -> (b: bool)
    ensures
        b == qualifies_spec(*pr, now as int),
{
    match (pr.draft, pr.updated_at) {
        (Some(false), Some(t)) => {
            let age: i128 = (now as i128) - (t as i128);
            age <= SIXTY_DAYS_SECS as i128
        },
        _ => false,
    }
}

/// The check classification as a value: `Passed` when every run succeeded,
/// `Pending` when not passed but some run has not completed, `Failed`
/// otherwise.
pub open spec fn check_status_spec(runs: Seq<CheckRun>) -> CheckStatus {
    if all_success(runs) {
        CheckStatus::Passed
    } else if any_incomplete(runs) {
        CheckStatus::Pending
    } else {
        CheckStatus::Failed
    }
}

/// The coloured dot that marks a check classification: green for passed,
/// yellow for pending, red for failed.
pub open spec fn status_emoji(s: CheckStatus) -> Seq<char> {
    match s {
        CheckStatus::Passed => "\u{1F7E2}"@,
        CheckStatus::Pending => "\u{1F7E1}"@,
        CheckStatus::Failed => "\u{1F534}"@,
    }
}

fn status_emoji_exec(s: CheckStatus) -> (r: &'static str)
    ensures
        r@ == status_emoji(s),
{
    match s {
        CheckStatus::Passed => "\u{1F7E2}",
        CheckStatus::Pending => "\u{1F7E1}",
        CheckStatus::Failed => "\u{1F534}",
    }
}

/// The first cell of a row: a markdown link `[#<number>](<url>)` followed
/// by the check-status dot.
pub open spec fn pr_cell_spec(number: nat, url: Seq<char>, s: CheckStatus) -> Seq<char> {
    "[#"@ + dec_rep(number) + "]("@ + url + ") "@ + status_emoji(s)
}

/// The author cell: the author's login, or empty when unknown.
pub open spec fn author_part(author: Option<String>) -> Seq<char> {
    match author {
        Some(a) => a@,
        None => Seq::<char>::empty(),
    }
}

/// The mergeable cell: the merge-readiness label, or `Unknown` when the
/// service reported none.
pub open spec fn mergeable_label(state: Option<MergeableState>) -> Seq<char> {
    match state {
        Some(s) => better_state(s),
        None => "Unknown"@,
    }
}

/// The four cells of one report row, in column order.
pub open spec fn entry_cells(e: PrEntry) -> Seq<Seq<char>> {
    seq![
        pr_cell_spec(e.pr.number as nat, e.pr.html_url@, check_status_spec(e.check_runs@)),
        author_part(e.pr.author),
        mergeable_label(e.pr.mergeable_state),
        review_label_spec(e.reviews@),
    ]
}

/// Builds the row of one qualifying pull request; the row has exactly the
/// four declared cells, in column order.
pub fn build_row(e: &PrEntry) -> (row: Vec<String>)
    ensures
        row.deep_view() == entry_cells(*e),
{
    let st = check_status(&e.check_runs);
    let mut cell = String::from_str("[#");
    let num = u64_to_string(e.pr.number);
    cell.append(num.as_str());
    cell.append("](");
    cell.append(e.pr.html_url.as_str());
    cell.append(") ");
    cell.append(status_emoji_exec(st));
    let author = match &e.pr.author {
        Some(a) => a.clone(),
        None => String::new(),
    };
    let mergeable = match &e.pr.mergeable_state {
        Some(s) => to_better_state(s),
        None => String::from_str("Unknown"),
    };
    let review = review_label(&e.reviews);
    let mut row: Vec<String> = Vec::new();
    row.push(cell);
    row.push(author);
    row.push(mergeable);
    row.push(review);
    proof {
        assert(st == check_status_spec(e.check_runs@));
        assert(row.deep_view() =~~= entry_cells(*e));
    }
    row
}

/// The four column titles of the report, in declared order.
pub open spec fn report_titles() -> Seq<Seq<char>> {
    seq!["PR"@, "Author"@, "Mergeable"@, "Review state"@]
}

fn report_title_cells() -> (titles: Vec<String>)
    ensures
        titles.deep_view() == report_titles(),
{
    let mut titles: Vec<String> = Vec::new();
    titles.push(String::from_str("PR"));
    titles.push(String::from_str("Author"));
    titles.push(String::from_str("Mergeable"));
    titles.push(String::from_str("Review state"));
    proof {
        assert(titles.deep_view() =~~= report_titles());
    }
    titles
}

/// The rows of the report from entry `i` on: one row per qualifying entry,
/// in listing order.
pub open spec fn report_rows_from(entries: Seq<PrEntry>, now: int, i: int) -> Seq<Seq<Seq<char>>>
    decreases entries.len() - i,
{
    if i < 0 || i >= entries.len() {
        Seq::empty()
    } else if qualifies_spec(entries[i].pr, now) {
        seq![entry_cells(entries[i])] + report_rows_from(entries, now, i + 1)
    } else {
        report_rows_from(entries, now, i + 1)
    }
}

/// The whole report at time `now`: the four declared columns and one row
/// per qualifying entry.
pub open spec fn report_text(entries: Seq<PrEntry>, now: int) -> Seq<char> {
    table_text(report_titles(), report_rows_from(entries, now, 0))
}

/// The rows of the report among the first `i` entries.
pub open spec fn report_rows_upto(entries: Seq<PrEntry>, now: int, i: int) -> Seq<Seq<Seq<char>>>
    decreases i,
{
    if i <= 0 {
        Seq::empty()
    } else if qualifies_spec(entries[i - 1].pr, now) {
        report_rows_upto(entries, now, i - 1).push(entry_cells(entries[i - 1]))
    } else {
        report_rows_upto(entries, now, i - 1)
    }
}

proof fn lemma_report_rows_split(entries: Seq<PrEntry>, now: int, i: int)
    requires
        0 <= i <= entries.len(),
    ensures
        report_rows_upto(entries, now, entries.len() as int) == report_rows_upto(entries, now, i)
            + report_rows_from(entries, now, i),
    decreases entries.len() - i,
{
    if i == entries.len() {
        assert(report_rows_upto(entries, now, i) + Seq::<Seq<Seq<char>>>::empty()
            =~= report_rows_upto(entries, now, i));
    } else {
        lemma_report_rows_split(entries, now, i + 1);
        if qualifies_spec(entries[i].pr, now) {
            assert(report_rows_upto(entries, now, i).push(entry_cells(entries[i]))
                + report_rows_from(entries, now, i + 1) =~= report_rows_upto(entries, now, i) + (
            seq![entry_cells(entries[i])] + report_rows_from(entries, now, i + 1)));
        }
    }
}

/// Renders the whole report: the table of every qualifying entry, at time
/// `now` (seconds since the Unix epoch).
pub fn summarize(entries: &Vec<PrEntry>, now: i64) -> (s: String)
    ensures
        s@ == report_text(entries@, now as int),
{
    let mut table = MarkdownTable::new();
    table.set_titles(report_title_cells());
    let mut i: usize = 0;
    while i < entries.len()
        invariant
            0 <= i <= entries.len(),
            table.titles.deep_view() == report_titles(),
            table.rows.deep_view() == report_rows_upto(entries@, now as int, i as int),
        decreases entries.len() - i,
    {
        let e = &entries[i];
        if qualifies(&e.pr, now) {
            let ghost old_rows = table.rows.deep_view();
            let row = build_row(e);
            table.add_row(row);
            proof {
                assert(table.rows.deep_view() =~= old_rows.push(row.deep_view()));
            }
        }
        i = i + 1;
    }
    proof {
        lemma_report_rows_split(entries@, now as int, 0);
        assert(Seq::<Seq<Seq<char>>>::empty() + report_rows_from(entries@, now as int, 0)
            =~= report_rows_from(entries@, now as int, 0));
    }
    table.render()
}

/// Relies on chrono::Utc::now for the current wall-clock time, read as
/// seconds since the Unix epoch; nothing is assumed of the value.
#[verifier::external_body]
fn now_unix_seconds() -> i64 {
    chrono::Utc::now().timestamp()
}

/// Renders the report at the current wall-clock time, and returns that
/// time with it: whatever instant the clock gave, the text is the report
/// at the returned instant.
pub fn summarize_now(entries: &Vec<PrEntry>) -> (res: (String, i64))
    ensures
        res.0@ == report_text(entries@, res.1 as int),
{
    let now = now_unix_seconds();
    let s = summarize(entries, now);
    (s, now)
}

/// The SHA of the last commit of a listing, when the listing is nonempty.
pub fn last_sha(shas: &Vec<String>) -> (r: Option<String>)
    ensures
        (r is Some) == (shas@.len() > 0),
        r matches Some(s) ==> s@ == shas@.last()@,
{
    if shas.len() == 0 {
        None
    } else {
        Some(shas[shas.len() - 1].clone())
    }
}

/// The table always has exactly the four declared columns, in declared
/// order, and every row has exactly one cell per column.
pub proof fn lemma_four_columns(e: PrEntry)
    ensures
        report_titles().len() == 4,
        report_titles()[0] == "PR"@,
        report_titles()[1] == "Author"@,
        report_titles()[2] == "Mergeable"@,
        report_titles()[3] == "Review state"@,
        entry_cells(e).len() == 4,
{
}

/// An entry that does not qualify contributes no row: appending it to the
/// listing leaves the report unchanged.
pub proof fn lemma_excluded_entry_no_row(entries: Seq<PrEntry>, e: PrEntry, now: int)
    requires
        !qualifies_spec(e.pr, now),
    ensures
        report_text(entries.push(e), now) == report_text(entries, now),
{
    lemma_excluded_entry_rows(entries, e, now, 0);
}

proof fn lemma_excluded_entry_rows(entries: Seq<PrEntry>, e: PrEntry, now: int, i: int)
    requires
        !qualifies_spec(e.pr, now),
        0 <= i <= entries.len(),
    ensures
        report_rows_from(entries.push(e), now, i) == report_rows_from(entries, now, i),
    decreases entries.len() - i,
{
    let longer = entries.push(e);
    if i == entries.len() {
        assert(longer[i] == e);
        assert(report_rows_from(longer, now, i) == report_rows_from(longer, now, i + 1));
        assert(report_rows_from(longer, now, i + 1) =~= Seq::<Seq<Seq<char>>>::empty());
    } else {
        assert(longer[i] == entries[i]);
        lemma_excluded_entry_rows(entries, e, now, i + 1);
    }
}

} // verus!
