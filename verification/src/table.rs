//! A markdown table accumulated row by row and rendered as one string.

use vstd::prelude::*;

verus! {

/// The body of a table line from column `i` on: each cell padded with one
/// space on either side and closed with a pipe.
pub open spec fn cells_text_from(cells: Seq<Seq<char>>, i: int) -> Seq<char>
    decreases cells.len() - i,
{
    if i < 0 || i >= cells.len() {
        Seq::empty()
    } else {
        " "@ + cells[i] + " |"@ + cells_text_from(cells, i + 1)
    }
}

/// One table line: `| cell | cell |` followed by a newline.
pub open spec fn row_line(cells: Seq<Seq<char>>) -> Seq<char> {
    "|"@ + cells_text_from(cells, 0) + "\n"@
}

pub open spec fn sep_cells(n: nat) -> Seq<char>
    decreases n,
{
    if n == 0 {
        Seq::empty()
    } else {
        " --- |"@ + sep_cells((n - 1) as nat)
    }
}

/// The header separator line for a table of `n` columns.
pub open spec fn sep_line(n: nat) -> Seq<char> {
    "|"@ + sep_cells(n) + "\n"@
}

/// The body lines of a table from row `i` on.
pub open spec fn rows_text_from(rows: Seq<Seq<Seq<char>>>, i: int) -> Seq<char>
    decreases rows.len() - i,
{
    if i < 0 || i >= rows.len() {
        Seq::empty()
    } else {
        row_line(rows[i]) + rows_text_from(rows, i + 1)
    }
}

/// A whole markdown table: the title line, a separator with one dash cell
/// per declared column, and one line per row.
pub open spec fn table_text(titles: Seq<Seq<char>>, rows: Seq<Seq<Seq<char>>>) -> Seq<char> {
    row_line(titles) + sep_line(titles.len()) + rows_text_from(rows, 0)
}

fn cells_text_exec(cells: &Vec<String>, i: usize) -> (s: String)
    requires
        i <= cells.len(),
    ensures
        s@ == cells_text_from(cells.deep_view(), i as int),
    decreases cells.len() - i,
{
    if i >= cells.len() {
        String::new()
    } else {
        let mut s = String::from_str(" ");
        s.append(cells[i].as_str());
        s.append(" |");
        let rest = cells_text_exec(cells, i + 1);
        s.append(rest.as_str());
        proof {
            assert(cells.deep_view()[i as int] == cells@[i as int]@);
        }
        s
    }
}

fn row_line_exec(cells: &Vec<String>) -> (s: String)
    ensures
        s@ == row_line(cells.deep_view()),
{
    let mut s = String::from_str("|");
    let body = cells_text_exec(cells, 0);
    s.append(body.as_str());
    s.append("\n");
    s
}

fn sep_cells_exec(n: usize) -> (s: String)
    ensures
        s@ == sep_cells(n as nat),
    decreases n,
{
    if n == 0 {
        String::new()
    } else {
        let mut s = String::from_str(" --- |");
        let rest = sep_cells_exec(n - 1);
        s.append(rest.as_str());
        s
    }
}

/// A markdown table under construction: its column titles and its rows, in
/// insertion order.
pub struct MarkdownTable {
    pub titles: Vec<String>,
    pub rows: Vec<Vec<String>>,
}

impl MarkdownTable {
    /// An empty table: no titles, no rows.
    pub fn new() -> (t: MarkdownTable)
        ensures
            t.titles@ == Seq::<String>::empty(),
            t.rows@ == Seq::<Vec<String>>::empty(),
    {
        MarkdownTable { titles: Vec::new(), rows: Vec::new() }
    }

    /// Replaces the column titles; the rows are kept.
    pub fn set_titles(&mut self, titles: Vec<String>)
        ensures
            final(self).titles == titles,
            final(self).rows == old(self).rows,
    {
        self.titles = titles;
    }

    /// Appends one row after the existing ones; the titles are kept.
    pub fn add_row(&mut self, row: Vec<String>)
        ensures
            final(self).titles == old(self).titles,
            final(self).rows@ == old(self).rows@.push(row),
    {
        self.rows.push(row);
    }

    /// Renders the table: the title line first, then the separator, then
    /// every row in insertion order.
    pub fn render(&self) -> (s: String)
        ensures
            s@ == table_text(self.titles.deep_view(), self.rows.deep_view()),
    {
        let mut s = row_line_exec(&self.titles);
        let sep = sep_cells_exec(self.titles.len());
        s.append("|");
        s.append(sep.as_str());
        s.append("\n");
        let mut i: usize = 0;
        while i < self.rows.len()
            invariant
                0 <= i <= self.rows.len(),
                s@ == row_line(self.titles.deep_view()) + sep_line(self.titles.deep_view().len())
                    + rows_text_upto(self.rows.deep_view(), i as int),
            decreases self.rows.len() - i,
        {
            let line = row_line_exec(&self.rows[i]);
            s.append(line.as_str());
            proof {
                assert(self.rows.deep_view()[i as int] == self.rows@[i as int].deep_view());
                lemma_rows_text_upto_snoc(self.rows.deep_view(), i as int);
            }
            i = i + 1;
        }
        proof {
            lemma_rows_text_upto_full(self.rows.deep_view());
        }
        s
    }
}

/// The body lines of the first `i` rows of a table.
pub open spec fn rows_text_upto(rows: Seq<Seq<Seq<char>>>, i: int) -> Seq<char>
    decreases i,
{
    if i <= 0 {
        Seq::empty()
    } else {
        rows_text_upto(rows, i - 1) + row_line(rows[i - 1])
    }
}

proof fn lemma_rows_text_upto_snoc(rows: Seq<Seq<Seq<char>>>, i: int)
    requires
        0 <= i < rows.len(),
    ensures
        rows_text_upto(rows, i + 1) == rows_text_upto(rows, i) + row_line(rows[i]),
{
}

/// Reading the rows front to back and back to front yields the same text.
proof fn lemma_rows_text_upto_full(rows: Seq<Seq<Seq<char>>>)
    ensures
        rows_text_upto(rows, rows.len() as int) == rows_text_from(rows, 0),
{
    lemma_rows_split(rows, 0);
    assert(rows_text_upto(rows, 0) == Seq::<char>::empty());
    assert(Seq::<char>::empty() + rows_text_from(rows, 0) =~= rows_text_from(rows, 0));
}

proof fn lemma_rows_split(rows: Seq<Seq<Seq<char>>>, i: int)
    requires
        0 <= i <= rows.len(),
    ensures
        rows_text_upto(rows, rows.len() as int) == rows_text_upto(rows, i) + rows_text_from(
            rows,
            i,
        ),
    decreases rows.len() - i,
{
    if i == rows.len() {
        assert(rows_text_from(rows, i) == Seq::<char>::empty());
        assert(rows_text_upto(rows, i) + Seq::<char>::empty() =~= rows_text_upto(rows, i));
    } else {
        lemma_rows_split(rows, i + 1);
        assert(rows_text_upto(rows, i + 1) == rows_text_upto(rows, i) + row_line(rows[i]));
        assert(rows_text_upto(rows, i) + row_line(rows[i]) + rows_text_from(rows, i + 1)
            =~= rows_text_upto(rows, i) + (row_line(rows[i]) + rows_text_from(rows, i + 1)));
    }
}

} // verus!
