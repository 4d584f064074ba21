//! Task results as comma-separated text.

use vstd::prelude::*;
use crate::runner::{TaskOutput, TaskOutputView};
use crate::text::{double_char, doubled, join, joined, str_has_char};

verus! {

/// A cell as it is written: as it stands, or, where it holds a comma or a
/// double quote, between double quotes with each of its own written twice.
pub open spec fn csv_cell(cell: Seq<char>) -> Seq<char> {
    if cell.contains(',') || cell.contains('"') {
        seq!['"'] + doubled(cell, '"') + seq!['"']
    } else {
        cell
    }
}

/// The cells of a row as they are written.
pub open spec fn csv_cells(row: Seq<Seq<char>>) -> Seq<Seq<char>> {
    Seq::new(row.len(), |i: int| csv_cell(row[i]))
}

/// A row as one line: its cells with commas between them.
pub open spec fn csv_line(row: Seq<Seq<char>>) -> Seq<char> {
    joined(csv_cells(row), seq![',']).push('\n')
}

/// The lines of the rows, one after another.
pub open spec fn csv_lines(rows: Seq<Seq<Seq<char>>>) -> Seq<char>
    decreases rows.len(),
{
    if rows.len() == 0 {
        Seq::empty()
    } else {
        csv_lines(rows.drop_last()) + csv_line(rows.last())
    }
}

/// The headers as one line, written as they stand; nothing where there
/// are none.
pub open spec fn csv_header(headers: Seq<Seq<char>>) -> Seq<char> {
    if headers.len() > 0 {
        joined(headers, seq![',']).push('\n')
    } else {
        Seq::empty()
    }
}

/// The table of an output as comma-separated text.
pub open spec fn csv_text(out: TaskOutputView) -> Seq<char> {
    csv_header(out.headers) + csv_lines(out.rows)
}

/// Writes `csv_cell`.
pub fn write_csv_cell(cell: &str) -> (r: String)
    ensures
        r@ == csv_cell(cell@),
{
    if str_has_char(cell, ',') || str_has_char(cell, '"') {
        proof {
            reveal_strlit("\"");
            assert("\""@ =~= seq!['"']);
        }
        let mut out = String::from_str("\"");
        out.append(double_char(cell, '"').as_str());
        out.append("\"");
        out
    } else {
        cell.to_owned()
    }
}

/// Writes `csv_line`.
pub fn write_csv_line(row: &Vec<String>) -> (r: String)
    ensures
        r@ == csv_line(row.deep_view()),
{
    let mut cells: Vec<String> = Vec::new();
    let mut i: usize = 0;
    while i < row.len()
        invariant
            i <= row.len(),
            cells@.len() == i,
            forall|k: int| 0 <= k < i ==> (#[trigger] cells@[k])@ == csv_cell(row@[k]@),
        decreases row.len() - i,
    {
        cells.push(write_csv_cell(row[i].as_str()));
        i += 1;
    }
    proof {
        assert(cells.deep_view() =~= csv_cells(row.deep_view()));
        reveal_strlit(",");
        assert(","@ =~= seq![',']);
        reveal_strlit("\n");
        assert("\n"@ =~= seq!['\n']);
    }
    let mut line = join(&cells, ",");
    line.append("\n");
    proof {
        assert(line@ =~= csv_line(row.deep_view()));
    }
    line
}

/// Writes the table of an output as comma-separated text.
pub fn export_csv(output: &TaskOutput) -> (r: String)
    ensures
        r@ == csv_text(output@),
{
    let mut text = String::new();
    proof {
        reveal_strlit(",");
        assert(","@ =~= seq![',']);
        reveal_strlit("\n");
        assert("\n"@ =~= seq!['\n']);
    }
    if output.headers.len() > 0 {
        text.append(join(&output.headers, ",").as_str());
        text.append("\n");
    }
    proof {
        assert(text@ =~= csv_header(output@.headers));
        assert(output@.rows.take(0) =~= Seq::empty());
    }
    let mut i: usize = 0;
    while i < output.rows.len()
        invariant
            i <= output.rows.len(),
            text@ == csv_header(output@.headers) + csv_lines(output@.rows.take(i as int)),
        decreases output.rows.len() - i,
    {
        let ghost next = output@.rows.take(i + 1);
        proof {
            assert(next.drop_last() =~= output@.rows.take(i as int));
            assert(next.last() == output.rows@[i as int].deep_view());
        }
        text.append(write_csv_line(&output.rows[i]).as_str());
        proof {
            assert(text@ =~= csv_header(output@.headers) + csv_lines(next));
        }
        i += 1;
    }
    proof {
        assert(output@.rows.take(output.rows.len() as int) =~= output@.rows);
    }
    text
}

/// The name of the file that an export made at `timestamp` goes to.
pub open spec fn export_file(timestamp: Seq<char>) -> Seq<char> {
    "export_results_"@ + timestamp + ".csv"@
}

/// Writes `export_file`.
pub fn export_file_name(timestamp: &str) -> (r: String)
    ensures
        r@ == export_file(timestamp@),
{
    let mut name = String::from_str("export_results_");
    name.append(timestamp);
    name.append(".csv");
    name
}

} // verus!
