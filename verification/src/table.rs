//! The table as text: its headings, the Markdown that `to_markdown_table`
//! writes for them and the rows, and the separator line made narrow.

use crate::args::Column;
use crate::dependency::{
    DependencyEntry, DependencyEntryView, RegistryMetadata, RegistryMetadataView,
};
use crate::parse_manifest::{
    entries_view, extracted, parse_dependencies, projected, projected_all, records_present,
    EntryError, ParsedCommentView,
};
use crate::text::{replace, replaced};
use to_markdown_table::{MarkdownTable, MarkdownTableError, TableRow};
use vstd::prelude::*;

verus! {

/// `to_markdown_table::TableRow`, one row of cells.
#[verifier::external_type_specification]
#[verifier::external_body]
pub struct ExTableRow(TableRow);

/// `to_markdown_table::MarkdownTable`, a heading row that may be missing and
/// the rows below it.
#[verifier::external_type_specification]
#[verifier::external_body]
pub struct ExMarkdownTable(MarkdownTable);

/// `to_markdown_table::MarkdownTableError`, why a table was refused.
#[verifier::external_type_specification]
#[verifier::external_body]
pub struct ExMarkdownTableError(MarkdownTableError);

/// The cells that a row holds.
pub uninterp spec fn row_cells(row: TableRow) -> Seq<Seq<char>>;

/// The heading row that a table holds, if it has one.
pub uninterp spec fn table_header(table: MarkdownTable) -> Option<Seq<Seq<char>>>;

/// The rows that a table holds below its heading.
pub uninterp spec fn table_rows(table: MarkdownTable) -> Seq<Seq<Seq<char>>>;

/// The text that `to_markdown_table` writes for a table with this heading row
/// and these rows.
pub uninterp spec fn markdown_text(
    header: Option<Seq<Seq<char>>>,
    rows: Seq<Seq<Seq<char>>>,
) -> Seq<char>;

/// The two numbers that a `MarkdownTableError` holds where it is
/// `InvalidRowLength`: the length expected, and the length found.
pub uninterp spec fn error_lengths(error: MarkdownTableError) -> Option<(usize, usize)>;

/// The position of the first row that has another number of cells than
/// `width`; the number of rows where there is none.
pub open spec fn first_misfit(rows: Seq<Seq<Seq<char>>>, width: nat) -> int
    decreases rows.len(),
{
    if rows.len() == 0 || rows[0].len() != width {
        0
    } else {
        1 + first_misfit(rows.skip(1), width)
    }
}

/// The cells of each of the rows.
pub open spec fn cells_of(rows: Seq<TableRow>) -> Seq<Seq<Seq<char>>> {
    rows.map_values(|row: TableRow| row_cells(row))
}

/// `TableRow::new` makes a row of the strings that it is given, in their
/// order.
pub assume_specification[ TableRow::new ](data: Vec<String>) -> (row: TableRow)
    ensures
        row_cells(row) == data.deep_view(),
;

/// `MarkdownTable::new`, called with a heading row. It compares the number of
/// cells of each row with that of the heading, in the order of the rows,
/// accepts the table when all agree, and refuses it at the first row that
/// differs, with the two lengths. The table then holds the heading and the
/// rows as they were given.
#[verifier::external_body]
fn new_table(header: TableRow, rows: Vec<TableRow>) -> (table: Result<
    MarkdownTable,
    MarkdownTableError,
>)
    ensures
        table is Ok <==> forall|i: int|
            0 <= i < rows.len() ==> row_cells(#[trigger] rows[i]).len() == row_cells(header).len(),
        table matches Ok(table) ==> table_header(table) == Some(row_cells(header)) && table_rows(
            table,
        ) == cells_of(rows@),
        table matches Err(error) ==> error_lengths(error) == Some(
            (
                row_cells(header).len() as usize,
                cells_of(rows@)[first_misfit(cells_of(rows@), row_cells(header).len())].len()
                    as usize,
            ),
        ),
{
    MarkdownTable::new(Some(header), rows)
}

/// The `Display` of `MarkdownTable`, which writes the heading row, a line of
/// dashes and the rows, each cell padded to the width of its column. The text
/// depends on nothing but the heading and the rows.
#[verifier::external_body]
fn table_text(table: &MarkdownTable) -> (text: String)
    ensures
        text@ == markdown_text(table_header(*table), table_rows(*table)),
{
    table.to_string()
}

/// Why the table could not be written.
#[derive(Clone, Copy, Debug, PartialEq, Eq, Structural)]
pub enum TableError {
    /// A row has another number of cells than the heading: the number
    /// expected, and the number found.
    InvalidRowLength(usize, usize),
    /// A table without a heading needs a row.
    NoRowsSpecified,
}

/// What an error of `to_markdown_table` tells, in the library's own terms.
pub open spec fn error_told(lengths: Option<(usize, usize)>) -> TableError {
    match lengths {
        Some((expected, found)) => TableError::InvalidRowLength(expected, found),
        None => TableError::NoRowsSpecified,
    }
}

/// Tells the errors of `to_markdown_table` apart.
#[verifier::external_body]
fn table_error(error: MarkdownTableError) -> (told: TableError)
    ensures
        told == error_told(error_lengths(error)),
{
    match error {
        MarkdownTableError::InvalidRowLength(expected, found) => TableError::InvalidRowLength(
            expected,
            found,
        ),
        MarkdownTableError::NoRowsSpecified => TableError::NoRowsSpecified,
    }
}

/// The heading of one column. The first column of the table also announces
/// the sections.
pub open spec fn header_cell(column: Column, first: bool) -> Seq<char> {
    if first {
        "**Category / "@ + column.title() + "**"@
    } else {
        "**"@ + column.title() + "**"@
    }
}

/// The heading row of a table with these columns.
pub open spec fn header_row(columns: Seq<Column>) -> Seq<Seq<char>> {
    Seq::new(columns.len(), |i: int| header_cell(columns[i], i == 0))
}

/// The heading row of a table with these columns.
pub fn headers(columns: &Vec<Column>) -> (row: Vec<String>)
    ensures
        row.deep_view() == header_row(columns@),
{
    let mut row: Vec<String> = Vec::new();
    let mut i: usize = 0;
    while i < columns.len()
        invariant
            i <= columns.len(),
            row.deep_view() == header_row(columns@.take(i as int)),
        decreases columns.len() - i,
    {
        let ghost before = row.deep_view();
        let mut cell = if i == 0 {
            "**Category / ".to_owned()
        } else {
            "**".to_owned()
        };
        cell.append(columns[i].to_string().as_str());
        cell.append("**");
        row.push(cell);
        assert(row.deep_view() =~= before.push(cell@));
        i += 1;
    }
    row
}

/// The text of a table with its separator line made narrow: the dashes run up
/// to the bars, with no space between them.
pub open spec fn tidied(text: Seq<char>) -> Seq<char> {
    replaced(replaced(replaced(text, "- | -"@, "--|--"@), "| -"@, "|--"@), "- |"@, "--|"@)
}

/// Makes the separator line of a written table narrow.
pub fn tidy_separators(text: &str) -> (tidy: String)
    ensures
        tidy@ == tidied(text@),
{
    let inner = replace(text, "- | -", "--|--");
    let left = replace(inner.as_str(), "| -", "|--");
    replace(left.as_str(), "- |", "--|")
}

/// Whether each of the rows has `width` cells.
pub open spec fn rows_fit(rows: Seq<Seq<Seq<char>>>, width: nat) -> bool {
    forall|i: int| 0 <= i < rows.len() ==> (#[trigger] rows[i]).len() == width
}

/// The table as Markdown: the headings of the columns, then the rows, written
/// by `to_markdown_table` and with the separator line made narrow. A row that
/// has another number of cells than there are columns is an error: that of the
/// first such row, with the number of columns and its number of cells.
pub fn render_table(columns: &Vec<Column>, rows: Vec<Vec<String>>) -> (text: Result<
    String,
    TableError,
>)
    ensures
        text is Ok <==> rows_fit(rows.deep_view(), columns@.len()),
        text matches Ok(text) ==> text@ == tidied(
            markdown_text(Some(header_row(columns@)), rows.deep_view()),
        ),
        text matches Err(error) ==> error == TableError::InvalidRowLength(
            columns.len(),
            rows.deep_view()[first_misfit(rows.deep_view(), columns@.len())].len() as usize,
        ),
{
    let header = TableRow::new(headers(columns));
    let ghost given = rows.deep_view();
    let mut body: Vec<TableRow> = Vec::new();
    for row in it: rows
        invariant
            given == it.seq().map_values(|r: Vec<String>| r.deep_view()),
            cells_of(body@) == given.take(it.index() as int),
    {
        let ghost before = body@;
        let made = TableRow::new(row);
        body.push(made);
        assert(cells_of(body@) =~= cells_of(before).push(row_cells(made)));
    }
    assert(cells_of(body@) =~= given);
    assert(forall|i: int| 0 <= i < body.len() ==> row_cells(#[trigger] body[i]) == given[i]);
    match new_table(header, body) {
        Ok(table) => Ok(tidy_separators(table_text(&table).as_str())),
        Err(error) => Err(table_error(error)),
    }
}

/// Where the rows do not all fit, the first misfit is one of them, it has
/// another number of cells than `width`, and every row before it fits.
pub proof fn lemma_first_misfit(rows: Seq<Seq<Seq<char>>>, width: nat)
    ensures
        0 <= first_misfit(rows, width) <= rows.len(),
        rows_fit(rows, width) <==> first_misfit(rows, width) == rows.len(),
        first_misfit(rows, width) < rows.len() ==> rows[first_misfit(rows, width)].len()
            != width,
        forall|i: int| 0 <= i < first_misfit(rows, width) ==> (#[trigger] rows[i]).len() == width,
    decreases rows.len(),
{
    if rows.len() > 0 && rows[0].len() == width {
        let rest = rows.skip(1);
        lemma_first_misfit(rest, width);
        assert forall|i: int| 0 <= i < first_misfit(rows, width) implies (#[trigger] rows[i]).len()
            == width by {
            if i > 0 {
                assert(rows[i] == rest[i - 1]);
            }
        }
        if rows_fit(rows, width) {
            assert forall|i: int| 0 <= i < rest.len() implies (#[trigger] rest[i]).len()
                == width by {
                assert(rest[i] == rows[i + 1]);
            }
        }
        if first_misfit(rest, width) < rest.len() {
            assert(rows[first_misfit(rows, width)] == rest[first_misfit(rest, width)]);
        }
    }
}

/// Every row of a dependency, that of its section too, has one cell for each
/// column: a table with the same columns takes them.
pub proof fn lemma_rows_of_a_dependency_fit(
    dependency: DependencyEntryView,
    parsed: ParsedCommentView,
    links: Option<RegistryMetadataView>,
    columns: Seq<Column>,
    skip_uncommented: bool,
)
    ensures
        projected(dependency, parsed, links, columns, skip_uncommented) matches Ok(rows)
            ==> rows_fit(rows, columns.len()),
{
}

/// Rows that fit a table still fit it when the rows of one dependency are put
/// after those of another.
pub proof fn lemma_rows_fit_together(
    first: Seq<Seq<Seq<char>>>,
    second: Seq<Seq<Seq<char>>>,
    width: nat,
)
    requires
        rows_fit(first, width),
        rows_fit(second, width),
    ensures
        rows_fit(first + second, width),
{
}

/// The rows of all the dependencies fit a table with the same columns.
pub proof fn lemma_all_rows_fit(
    entries: Seq<(DependencyEntryView, Option<RegistryMetadataView>)>,
    columns: Seq<Column>,
    skip_uncommented: bool,
)
    ensures
        projected_all(entries, columns, skip_uncommented) matches Ok(rows) ==> rows_fit(
            rows,
            columns.len(),
        ),
    decreases entries.len(),
{
    if entries.len() > 0 {
        let last = entries.last();
        lemma_all_rows_fit(entries.drop_last(), columns, skip_uncommented);
        if let Ok(rows) = projected_all(entries.drop_last(), columns, skip_uncommented) {
            let parsed = extracted(last.0.prefix, last.0.suffix);
            if let Ok(more) = projected(last.0, parsed, last.1, columns, skip_uncommented) {
                lemma_rows_of_a_dependency_fit(last.0, parsed, last.1, columns, skip_uncommented);
                lemma_rows_fit_together(rows, more, columns.len());
            }
        }
    }
}

/// The text of the table of all the dependencies; the error of the first
/// dependency that has no version to show, where there is one.
pub open spec fn described(
    entries: Seq<(DependencyEntryView, Option<RegistryMetadataView>)>,
    columns: Seq<Column>,
    skip_uncommented: bool,
) -> Result<Seq<char>, EntryError> {
    match projected_all(entries, columns, skip_uncommented) {
        Ok(rows) => Ok(tidied(markdown_text(Some(header_row(columns)), rows))),
        Err(e) => Err(e),
    }
}

/// The text of a result that holds a table.
pub open spec fn table_of(r: Result<String, EntryError>) -> Result<Seq<char>, EntryError> {
    match r {
        Ok(text) => Ok(text@),
        Err(e) => Err(e),
    }
}

/// The table of all the dependencies, each given with the registry's record of
/// it: the headings of the columns, then the rows in the order of the
/// manifest. The rows always fit the table, so the only error is that of a
/// dependency without a version to show.
///
/// Where a dependency is no local one and a column shows a link, its record
/// has to be there.
pub fn describe_dependencies(
    entries: &Vec<(DependencyEntry, Option<RegistryMetadata>)>,
    columns: &Vec<Column>,
    skip_uncommented: bool,
) -> (table: Result<String, EntryError>)
    requires
        records_present(entries_view(entries@), columns@),
    ensures
        table_of(table) == described(entries_view(entries@), columns@, skip_uncommented),
{
    let rows = match parse_dependencies(entries, columns, skip_uncommented) {
        Ok(rows) => rows,
        Err(e) => {
            return Err(e);
        },
    };
    proof {
        lemma_all_rows_fit(entries_view(entries@), columns@, skip_uncommented);
    }
    match render_table(columns, rows) {
        Ok(text) => Ok(text),
        Err(_) => unreached(),
    }
}

} // verus!
