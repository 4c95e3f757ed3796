//! The output formats: table, value (`/VALUE`, `LIST`), CSV, raw XML and the two HTML forms.
//!
//! Rendering first resolves the columns and the text of every cell; each format is then
//! specified over the column names and the grid of cell texts.
use vstd::prelude::*;
use crate::cli::{FormatView, OutputFormat};
use crate::record::{push_value_text, value_text, Record, ValueView};
use crate::text::{
    chars_of, ci_eq, eq_ignore_case, extend, extend_str, push_spaces, spaces, string_of, strs,
    views,
};

verus! {

// ---------------------------------------------------------------------------
// Columns and cells
// ---------------------------------------------------------------------------

/// The entries of a record, in name order.
pub type Entries = Seq<(Seq<char>, ValueView)>;

/// The records' views.
pub open spec fn record_views(records: Seq<Record>) -> Seq<Entries> {
    records.map_values(|r: Record| r@)
}

/// The first entry at or after `from` whose name equals `column` up to ASCII case.
pub open spec fn cell_from(entries: Entries, column: Seq<char>, from: int) -> Option<ValueView>
    decreases entries.len() - from,
{
    if from < 0 || from >= entries.len() {
        None
    } else if ci_eq(entries[from].0, column) {
        Some(entries[from].1)
    } else {
        cell_from(entries, column, from + 1)
    }
}

/// The text of a record's cell in a column: its value's text, or nothing when the record has
/// no such property.
pub open spec fn cell_text(entries: Entries, column: Seq<char>) -> Seq<char> {
    match cell_from(entries, column, 0) {
        Some(v) => value_text(v),
        None => Seq::empty(),
    }
}

/// The first property name at or after `from` equal to `wanted` up to ASCII case.
pub open spec fn key_from(entries: Entries, wanted: Seq<char>, from: int) -> Option<Seq<char>>
    decreases entries.len() - from,
{
    if from < 0 || from >= entries.len() {
        None
    } else if ci_eq(entries[from].0, wanted) {
        Some(entries[from].0)
    } else {
        key_from(entries, wanted, from + 1)
    }
}

/// The first property name, over the records in order, equal to `wanted` up to ASCII case.
pub open spec fn key_in_records(records: Seq<Entries>, wanted: Seq<char>, from: int) -> Option<
    Seq<char>,
>
    decreases records.len() - from,
{
    if from < 0 || from >= records.len() {
        None
    } else {
        match key_from(records[from], wanted, 0) {
            Some(k) => Some(k),
            None => key_in_records(records, wanted, from + 1),
        }
    }
}

/// A requested column spelled as the records spell it, or as requested when none has it.
pub open spec fn resolve_column(records: Seq<Entries>, wanted: Seq<char>) -> Seq<char> {
    match key_in_records(records, wanted, 0) {
        Some(k) => k,
        None => wanted,
    }
}

/// Whether the request names columns: it is not empty and not only `*`.
pub open spec fn names_columns(requested: Seq<Seq<char>>) -> bool {
    requested.len() > 0 && exists|i: int| 0 <= i < requested.len() && requested[i] != seq!['*']
}

/// The columns shown: the requested ones, resolved; otherwise the first record's names.
pub open spec fn columns_spec(records: Seq<Entries>, requested: Seq<Seq<char>>) -> Seq<Seq<char>> {
    if names_columns(requested) {
        Seq::new(requested.len(), |i: int| resolve_column(records, requested[i]))
    } else if records.len() > 0 {
        Seq::new(records[0].len(), |i: int| records[0][i].0)
    } else {
        Seq::empty()
    }
}

/// The grid of cell texts: one row per record, one text per column.
pub open spec fn cell_texts(records: Seq<Entries>, columns: Seq<Seq<char>>) -> Seq<Seq<Seq<char>>> {
    Seq::new(
        records.len(),
        |r: int| Seq::new(columns.len(), |j: int| cell_text(records[r], columns[j])),
    )
}

/// The grid view of nested buffers.
pub open spec fn grid(rows: Seq<Vec<Vec<char>>>) -> Seq<Seq<Seq<char>>> {
    rows.map_values(|row: Vec<Vec<char>>| views(row@))
}

/// Every row has one text per column.
pub open spec fn rectangular(rows: Seq<Seq<Seq<char>>>, width: int) -> bool {
    forall|r: int| 0 <= r < rows.len() ==> #[trigger] rows[r].len() == width
}

// ---------------------------------------------------------------------------
// Formats over the grid
// ---------------------------------------------------------------------------

/// What every format but raw XML and HTML prints when there are no records.
pub open spec fn no_instances() -> Seq<char> {
    "No Instance(s) Available.\r\r\n"@
}

/// `column=text` lines for the first `n` columns.
pub open spec fn value_fields(cols: Seq<Seq<char>>, row: Seq<Seq<char>>, n: int) -> Seq<char>
    decreases n,
{
    if n <= 0 {
        Seq::empty()
    } else {
        value_fields(cols, row, n - 1) + cols[n - 1] + "="@ + row[n - 1] + "\r\r\n"@
    }
}

/// The first `n` records in the value format, each after a blank line.
pub open spec fn value_records(cols: Seq<Seq<char>>, rows: Seq<Seq<Seq<char>>>, n: int) -> Seq<char>
    decreases n,
{
    if n <= 0 {
        Seq::empty()
    } else {
        value_records(cols, rows, n - 1) + "\r\r\n"@ + value_fields(cols, rows[n - 1], cols.len() as int)
    }
}

/// The value format (`/VALUE`, `LIST`).
pub open spec fn value_format(cols: Seq<Seq<char>>, rows: Seq<Seq<Seq<char>>>) -> Seq<char> {
    if rows.len() == 0 {
        no_instances()
    } else {
        value_records(cols, rows, rows.len() as int) + "\r\r\n"@
    }
}

/// A column's content width: its name's length or the longest text in it.
pub open spec fn content_width(cols: Seq<Seq<char>>, rows: Seq<Seq<Seq<char>>>, j: int, n: int) -> nat
    decreases n,
{
    if n <= 0 {
        cols[j].len()
    } else {
        let w = content_width(cols, rows, j, n - 1);
        let l = rows[n - 1][j].len();
        if l > w {
            l
        } else {
            w
        }
    }
}

/// The content width of every column.
pub open spec fn column_widths(cols: Seq<Seq<char>>, rows: Seq<Seq<Seq<char>>>) -> Seq<nat> {
    Seq::new(cols.len(), |j: int| content_width(cols, rows, j, rows.len() as int))
}

/// A table cell: the text, then spaces up to the content width plus two.
pub open spec fn pad_cell(text: Seq<char>, width: nat) -> Seq<char> {
    if text.len() <= width + 2 {
        text + spaces((width + 2 - text.len()) as nat)
    } else {
        text
    }
}

/// The first `n` cells of a table row.
pub open spec fn row_cells(values: Seq<Seq<char>>, widths: Seq<nat>, n: int) -> Seq<char>
    decreases n,
{
    if n <= 0 {
        Seq::empty()
    } else {
        row_cells(values, widths, n - 1) + pad_cell(values[n - 1], widths[n - 1])
    }
}

/// The first `n` record rows of a table.
pub open spec fn table_rows(rows: Seq<Seq<Seq<char>>>, widths: Seq<nat>, n: int) -> Seq<char>
    decreases n,
{
    if n <= 0 {
        Seq::empty()
    } else {
        table_rows(rows, widths, n - 1) + row_cells(rows[n - 1], widths, widths.len() as int)
            + "\r\r\n"@
    }
}

/// The table format: a header row of column names, then one row per record, each column
/// padded to its content width plus two.
pub open spec fn table_format(cols: Seq<Seq<char>>, rows: Seq<Seq<Seq<char>>>) -> Seq<char> {
    if rows.len() == 0 || cols.len() == 0 {
        no_instances()
    } else {
        let widths = column_widths(cols, rows);
        row_cells(cols, widths, cols.len() as int) + "\r\r\n"@ + table_rows(
            rows,
            widths,
            rows.len() as int,
        )
    }
}

/// Whether a CSV field must be quoted: it holds a comma, a double quote, CR or LF.
pub open spec fn csv_special(v: Seq<char>) -> bool {
    exists|i: int| 0 <= i < v.len() && (v[i] == ',' || v[i] == '"' || v[i] == '\r' || v[i] == '\n')
}

/// `v` with every double quote doubled.
pub open spec fn double_quotes(v: Seq<char>) -> Seq<char>
    decreases v.len(),
{
    if v.len() == 0 {
        Seq::empty()
    } else {
        double_quotes(v.drop_last()) + if v.last() == '"' {
            seq!['"', '"']
        } else {
            seq![v.last()]
        }
    }
}

/// A CSV field: quoted, with quotes doubled, only when it has to be.
pub open spec fn csv_escape_spec(v: Seq<char>) -> Seq<char> {
    if csv_special(v) {
        seq!['"'] + double_quotes(v) + seq!['"']
    } else {
        v
    }
}

/// The first `n` fields of a CSV line, each after a comma.
pub open spec fn csv_fields(values: Seq<Seq<char>>, n: int) -> Seq<char>
    decreases n,
{
    if n <= 0 {
        Seq::empty()
    } else {
        csv_fields(values, n - 1) + seq![','] + csv_escape_spec(values[n - 1])
    }
}

/// The first `n` CSV record lines, each starting with the node.
pub open spec fn csv_records(cols: Seq<Seq<char>>, rows: Seq<Seq<Seq<char>>>, node: Seq<char>, n: int) -> Seq<
    char,
>
    decreases n,
{
    if n <= 0 {
        Seq::empty()
    } else {
        csv_records(cols, rows, node, n - 1) + csv_escape_spec(node) + csv_fields(
            rows[n - 1],
            cols.len() as int,
        ) + "\r\r\n"@
    }
}

/// The CSV format: a `Node` header, then one line per record.
pub open spec fn csv_format(cols: Seq<Seq<char>>, rows: Seq<Seq<Seq<char>>>, node: Seq<char>) -> Seq<
    char,
> {
    if rows.len() == 0 {
        no_instances()
    } else {
        "\r\r\nNode"@ + csv_fields(cols, cols.len() as int) + "\r\r\n"@ + csv_records(
            cols,
            rows,
            node,
            rows.len() as int,
        )
    }
}

/// The XML/HTML escape of one character.
pub open spec fn escape_char(c: char) -> Seq<char> {
    if c == '&' {
        "&amp;"@
    } else if c == '<' {
        "&lt;"@
    } else if c == '>' {
        "&gt;"@
    } else if c == '"' {
        "&quot;"@
    } else {
        seq![c]
    }
}

/// `v` with `&`, `<`, `>` and `"` escaped.
pub open spec fn xml_escape_spec(v: Seq<char>) -> Seq<char>
    decreases v.len(),
{
    if v.len() == 0 {
        Seq::empty()
    } else {
        xml_escape_spec(v.drop_last()) + escape_char(v.last())
    }
}

/// The first `n` properties of a raw-XML instance.
pub open spec fn xml_properties(cols: Seq<Seq<char>>, row: Seq<Seq<char>>, n: int) -> Seq<char>
    decreases n,
{
    if n <= 0 {
        Seq::empty()
    } else {
        xml_properties(cols, row, n - 1) + "<PROPERTY NAME=\""@ + xml_escape_spec(cols[n - 1])
            + "\"><VALUE>"@ + xml_escape_spec(row[n - 1]) + "</VALUE></PROPERTY>\r\n"@
    }
}

/// The first `n` raw-XML instances.
pub open spec fn xml_records(cols: Seq<Seq<char>>, rows: Seq<Seq<Seq<char>>>, n: int) -> Seq<char>
    decreases n,
{
    if n <= 0 {
        Seq::empty()
    } else {
        xml_records(cols, rows, n - 1) + "<CIM>\r\n<INSTANCE>\r\n"@ + xml_properties(
            cols,
            rows[n - 1],
            cols.len() as int,
        ) + "</INSTANCE>\r\n</CIM>\r\n"@
    }
}

/// The raw XML format.
pub open spec fn raw_xml_format(cols: Seq<Seq<char>>, rows: Seq<Seq<Seq<char>>>) -> Seq<char> {
    "<?xml version=\"1.0\"?>\r\n<COMMAND>\r\n<RESULTS>\r\n"@ + xml_records(cols, rows, rows.len() as int)
        + "</RESULTS>\r\n</COMMAND>\r\n"@
}

/// The first `n` header cells of an HTML table.
pub open spec fn th_cells(cols: Seq<Seq<char>>, n: int) -> Seq<char>
    decreases n,
{
    if n <= 0 {
        Seq::empty()
    } else {
        th_cells(cols, n - 1) + "<TH>"@ + xml_escape_spec(cols[n - 1]) + "</TH>"@
    }
}

/// The first `n` data cells of an HTML table row.
pub open spec fn td_cells(row: Seq<Seq<char>>, n: int) -> Seq<char>
    decreases n,
{
    if n <= 0 {
        Seq::empty()
    } else {
        td_cells(row, n - 1) + "<TD>"@ + xml_escape_spec(row[n - 1]) + "</TD>"@
    }
}

/// The first `n` data rows of an HTML table.
pub open spec fn tr_rows(cols: Seq<Seq<char>>, rows: Seq<Seq<Seq<char>>>, n: int) -> Seq<char>
    decreases n,
{
    if n <= 0 {
        Seq::empty()
    } else {
        tr_rows(cols, rows, n - 1) + "<TR>"@ + td_cells(rows[n - 1], cols.len() as int) + "</TR>"@
    }
}

/// The first `n` `name=value` lines of an HTML form record.
pub open spec fn form_fields(cols: Seq<Seq<char>>, row: Seq<Seq<char>>, n: int) -> Seq<char>
    decreases n,
{
    if n <= 0 {
        Seq::empty()
    } else {
        form_fields(cols, row, n - 1) + "<B>"@ + xml_escape_spec(cols[n - 1]) + "</B>="@
            + xml_escape_spec(row[n - 1]) + "<BR>"@
    }
}

/// The first `n` HTML form records.
pub open spec fn form_records(cols: Seq<Seq<char>>, rows: Seq<Seq<Seq<char>>>, n: int) -> Seq<char>
    decreases n,
{
    if n <= 0 {
        Seq::empty()
    } else {
        form_records(cols, rows, n - 1) + form_fields(cols, rows[n - 1], cols.len() as int)
            + "<BR>"@
    }
}

/// The opening of both HTML formats.
pub const HTML_HEAD: &'static str = "<HTML><HEAD><META HTTP-EQUIV=\"Content-Type\" CONTENT=\"text/html; charset=utf-8\"></HEAD><BODY>";

/// The HTML formats: a table (`HTABLE`) or a form (`HFORM`).
pub open spec fn html_format(cols: Seq<Seq<char>>, rows: Seq<Seq<Seq<char>>>, as_table: bool) -> Seq<
    char,
> {
    HTML_HEAD@ + (if as_table {
        "<TABLE BORDER=\"1\"><TR>"@ + th_cells(cols, cols.len() as int) + "</TR>"@ + tr_rows(
            cols,
            rows,
            rows.len() as int,
        ) + "</TABLE>"@
    } else {
        form_records(cols, rows, rows.len() as int)
    }) + "</BODY></HTML>\r\n"@
}

/// What `render` prints: the columns resolved against the records, every cell's text, laid
/// out in the format asked for (a custom `/FORMAT` style prints as a table).
pub open spec fn render_spec(
    records: Seq<Entries>,
    requested: Seq<Seq<char>>,
    format: FormatView,
    node: Seq<char>,
) -> Seq<char> {
    let cols = columns_spec(records, requested);
    let rows = cell_texts(records, cols);
    match format {
        FormatView::Value | FormatView::List => value_format(cols, rows),
        FormatView::Csv => csv_format(cols, rows, node),
        FormatView::RawXml => raw_xml_format(cols, rows),
        FormatView::HForm => html_format(cols, rows, false),
        FormatView::HTable => html_format(cols, rows, true),
        FormatView::Table | FormatView::Custom(_) => table_format(cols, rows),
    }
}


/// A custom `/FORMAT` style is kept in the parsed query but prints as a table.
pub proof fn law_custom_format_prints_as_table(
    records: Seq<Entries>,
    requested: Seq<Seq<char>>,
    style: Seq<char>,
    node: Seq<char>,
)
    ensures
        render_spec(records, requested, FormatView::Custom(style), node) == render_spec(
            records,
            requested,
            FormatView::Table,
            node,
        ),
{
}

proof fn lemma_content_width(cols: Seq<Seq<char>>, rows: Seq<Seq<Seq<char>>>, j: int, n: int)
    requires
        0 <= n <= rows.len(),
    ensures
        content_width(cols, rows, j, n) >= cols[j].len(),
        forall|r: int| 0 <= r < n ==> content_width(cols, rows, j, n) >= #[trigger] rows[r][j].len(),
        content_width(cols, rows, j, n) == cols[j].len() || exists|r: int|
            0 <= r < n && content_width(cols, rows, j, n) == #[trigger] rows[r][j].len(),
    decreases n,
{
    if n > 0 {
        lemma_content_width(cols, rows, j, n - 1);
        let w = content_width(cols, rows, j, n);
        if w != cols[j].len() && w != rows[n - 1][j].len() {
            let r = choose|r: int|
                0 <= r < n - 1 && content_width(cols, rows, j, n - 1) == #[trigger] rows[r][j].len();
            assert(w == rows[r][j].len());
        }
    }
}

/// In the table format every column is as wide as the longest of its name and of its texts in
/// all records (and no wider): each cell, the name's included, is padded to that width plus
/// two, so the columns line up.
pub proof fn law_table_columns_fit_every_cell(
    cols: Seq<Seq<char>>,
    rows: Seq<Seq<Seq<char>>>,
    j: int,
)
    requires
        0 <= j < cols.len(),
    ensures
        ({
            let w = column_widths(cols, rows)[j];
            &&& w >= cols[j].len()
            &&& forall|r: int| 0 <= r < rows.len() ==> w >= #[trigger] rows[r][j].len()
            &&& w == cols[j].len() || exists|r: int|
                0 <= r < rows.len() && w == #[trigger] rows[r][j].len()
            &&& pad_cell(cols[j], w).len() == w + 2
            &&& forall|r: int|
                0 <= r < rows.len() ==> #[trigger] pad_cell(rows[r][j], w).len() == w + 2
        }),
{
    lemma_content_width(cols, rows, j, rows.len() as int);
    let w = column_widths(cols, rows)[j];
    assert(w == content_width(cols, rows, j, rows.len() as int));
    assert forall|r: int| 0 <= r < rows.len() implies #[trigger] pad_cell(rows[r][j], w).len() == w
        + 2 by {
        assert(w >= rows[r][j].len());
    }
}

// ---------------------------------------------------------------------------
// Executable rendering
// ---------------------------------------------------------------------------

/// The text of `record`'s cell in `column`.
fn cell_text_of(record: &Record, column: &Vec<char>) -> (r: Vec<char>)
    ensures
        r@ == cell_text(record@, column@),
{
    let mut i: usize = 0;
    while i < record.len()
        invariant
            i <= record@.len(),
            cell_from(record@, column@, 0) == cell_from(record@, column@, i as int),
        decreases record@.len() - i,
    {
        let name = chars_of(record.name_at(i).as_str());
        if eq_ignore_case(&name, column) {
            let mut out: Vec<char> = Vec::new();
            push_value_text(&mut out, record.value_at(i));
            assert(out@ =~= value_text(record@[i as int].1));
            return out;
        }
        i = i + 1;
    }
    Vec::new()
}

/// The first of `record`'s names equal to `wanted` up to ASCII case.
fn key_of(record: &Record, wanted: &Vec<char>) -> (r: Option<Vec<char>>)
    ensures
        match r {
            Some(k) => key_from(record@, wanted@, 0) == Some(k@),
            None => key_from(record@, wanted@, 0) is None,
        },
{
    let mut i: usize = 0;
    while i < record.len()
        invariant
            i <= record@.len(),
            key_from(record@, wanted@, 0) == key_from(record@, wanted@, i as int),
        decreases record@.len() - i,
    {
        let name = chars_of(record.name_at(i).as_str());
        if eq_ignore_case(&name, wanted) {
            return Some(name);
        }
        i = i + 1;
    }
    None
}

/// A requested column as the records spell it.
fn resolve(records: &[Record], wanted: &Vec<char>) -> (r: Vec<char>)
    ensures
        r@ == resolve_column(record_views(records@), wanted@),
{
    let ghost recs = record_views(records@);
    let mut i: usize = 0;
    while i < records.len()
        invariant
            i <= records@.len(),
            recs == record_views(records@),
            key_in_records(recs, wanted@, 0) == key_in_records(recs, wanted@, i as int),
        decreases records@.len() - i,
    {
        assert(recs[i as int] == records@[i as int]@);
        match key_of(&records[i], wanted) {
            Some(k) => {
                return k;
            },
            None => {},
        }
        i = i + 1;
    }
    crate::text::copy_chars(wanted)
}

/// The columns to show.
fn columns(records: &[Record], requested: &[String]) -> (r: Vec<Vec<char>>)
    ensures
        views(r@) == columns_spec(record_views(records@), strs(requested@)),
{
    let ghost recs = record_views(records@);
    let ghost req = strs(requested@);
    let mut named = false;
    let mut i: usize = 0;
    while i < requested.len()
        invariant
            i <= requested@.len(),
            req == strs(requested@),
            named == exists|k: int| 0 <= k < i && req[k] != seq!['*'],
        decreases requested@.len() - i,
    {
        let c = chars_of(requested[i].as_str());
        assert(c@ == req[i as int]);
        let star = c.len() == 1 && c[0] == '*';
        assert(star == (req[i as int] =~= seq!['*']));
        if !star {
            named = true;
        }
        i = i + 1;
    }
    if requested.len() > 0 && named {
        let mut cols: Vec<Vec<char>> = Vec::new();
        let mut j: usize = 0;
        while j < requested.len()
            invariant
                j <= requested@.len(),
                req == strs(requested@),
                recs == record_views(records@),
                cols@.len() == j,
                forall|k: int| 0 <= k < j ==> #[trigger] cols@[k]@ == resolve_column(recs, req[k]),
            decreases requested@.len() - j,
        {
            let wanted = chars_of(requested[j].as_str());
            cols.push(resolve(records, &wanted));
            j = j + 1;
        }
        assert(views(cols@) =~= columns_spec(recs, req));
        cols
    } else if records.len() > 0 {
        let first = &records[0];
        assert(recs[0] == first@);
        let mut cols: Vec<Vec<char>> = Vec::new();
        let mut j: usize = 0;
        while j < first.len()
            invariant
                j <= first@.len(),
                cols@.len() == j,
                forall|k: int| 0 <= k < j ==> #[trigger] cols@[k]@ == first@[k].0,
            decreases first@.len() - j,
        {
            cols.push(chars_of(first.name_at(j).as_str()));
            j = j + 1;
        }
        assert(views(cols@) =~= columns_spec(recs, req));
        cols
    } else {
        let cols: Vec<Vec<char>> = Vec::new();
        assert(views(cols@) =~= columns_spec(recs, req));
        cols
    }
}

/// The grid of cell texts.
fn cell_grid(records: &[Record], cols: &Vec<Vec<char>>) -> (r: Vec<Vec<Vec<char>>>)
    ensures
        grid(r@) == cell_texts(record_views(records@), views(cols@)),
{
    let ghost recs = record_views(records@);
    let ghost c = views(cols@);
    let mut rows: Vec<Vec<Vec<char>>> = Vec::new();
    let mut i: usize = 0;
    while i < records.len()
        invariant
            i <= records@.len(),
            recs == record_views(records@),
            c == views(cols@),
            rows@.len() == i,
            forall|k: int| 0 <= k < i ==> #[trigger] grid(rows@)[k] == cell_texts(recs, c)[k],
        decreases records@.len() - i,
    {
        let mut row: Vec<Vec<char>> = Vec::new();
        let mut j: usize = 0;
        assert(recs[i as int] == records@[i as int]@);
        while j < cols.len()
            invariant
                j <= cols@.len(),
                i < records@.len(),
                recs == record_views(records@),
                c == views(cols@),
                row@.len() == j,
                forall|k: int| 0 <= k < j ==> #[trigger] row@[k]@ == cell_text(recs[i as int], c[k]),
            decreases cols@.len() - j,
        {
            row.push(cell_text_of(&records[i], &cols[j]));
            j = j + 1;
        }
        let ghost before = rows@;
        rows.push(row);
        assert(views(row@) =~= cell_texts(recs, c)[i as int]);
        assert forall|k: int| 0 <= k < i + 1 implies #[trigger] grid(rows@)[k] == cell_texts(
            recs,
            c,
        )[k] by {
            if k < i {
                assert(rows@[k] == before[k]);
                assert(grid(rows@)[k] == views(rows@[k]@));
                assert(grid(before)[k] == views(before[k]@));
            } else {
                assert(grid(rows@)[k] == views(rows@[k]@));
            }
        }
        i = i + 1;
    }
    assert(grid(rows@) =~= cell_texts(recs, c));
    rows
}


/// Widths as natural numbers.
pub open spec fn nat_seq(w: Seq<usize>) -> Seq<nat> {
    w.map_values(|x: usize| x as nat)
}

fn no_instances_text() -> (r: Vec<char>)
    ensures
        r@ == no_instances(),
{
    chars_of("No Instance(s) Available.\r\r\n")
}

fn push_value_fields(out: &mut Vec<char>, cols: &Vec<Vec<char>>, row: &Vec<Vec<char>>)
    requires
        row@.len() == cols@.len(),
    ensures
        final(out)@ == old(out)@ + value_fields(views(cols@), views(row@), cols@.len() as int),
{
    let mut j: usize = 0;
    while j < cols.len()
        invariant
            j <= cols@.len(),
            row@.len() == cols@.len(),
            out@ == old(out)@ + value_fields(views(cols@), views(row@), j as int),
        decreases cols@.len() - j,
    {
        extend(out, &cols[j]);
        extend_str(out, "=");
        extend(out, &row[j]);
        extend_str(out, "\r\r\n");
        j = j + 1;
    }
}

fn value_exec(cols: &Vec<Vec<char>>, rows: &Vec<Vec<Vec<char>>>) -> (r: Vec<char>)
    requires
        rectangular(grid(rows@), cols@.len() as int),
    ensures
        r@ == value_format(views(cols@), grid(rows@)),
{
    if rows.len() == 0 {
        return no_instances_text();
    }
    let ghost c = views(cols@);
    let ghost g = grid(rows@);
    let mut out: Vec<char> = Vec::new();
    let mut i: usize = 0;
    while i < rows.len()
        invariant
            i <= rows@.len(),
            c == views(cols@),
            g == grid(rows@),
            rectangular(g, cols@.len() as int),
            out@ == value_records(c, g, i as int),
        decreases rows@.len() - i,
    {
        assert(g[i as int] == views(rows@[i as int]@));
        assert(g[i as int].len() == cols@.len());
        extend_str(&mut out, "\r\r\n");
        push_value_fields(&mut out, cols, &rows[i]);
        i = i + 1;
    }
    extend_str(&mut out, "\r\r\n");
    out
}

fn column_width(cols: &Vec<Vec<char>>, rows: &Vec<Vec<Vec<char>>>, j: usize) -> (r: usize)
    requires
        j < cols@.len(),
        rectangular(grid(rows@), cols@.len() as int),
    ensures
        r as nat == content_width(views(cols@), grid(rows@), j as int, rows@.len() as int),
{
    let ghost c = views(cols@);
    let ghost g = grid(rows@);
    let mut w = cols[j].len();
    let mut i: usize = 0;
    while i < rows.len()
        invariant
            i <= rows@.len(),
            j < cols@.len(),
            c == views(cols@),
            g == grid(rows@),
            rectangular(g, cols@.len() as int),
            w as nat == content_width(c, g, j as int, i as int),
        decreases rows@.len() - i,
    {
        assert(g[i as int] == views(rows@[i as int]@));
        assert(g[i as int].len() == cols@.len());
        let l = rows[i][j].len();
        if l > w {
            w = l;
        }
        i = i + 1;
    }
    w
}

fn push_pad_cell(out: &mut Vec<char>, text: &Vec<char>, width: usize)
    ensures
        final(out)@ == old(out)@ + pad_cell(text@, width as nat),
{
    extend(out, text);
    if text.len() <= width {
        push_spaces(out, width - text.len());
        push_spaces(out, 2);
        assert(final(out)@ =~= old(out)@ + pad_cell(text@, width as nat));
    } else if text.len() - width <= 2 {
        push_spaces(out, 2 - (text.len() - width));
    }
}

fn push_row_cells(out: &mut Vec<char>, values: &Vec<Vec<char>>, widths: &Vec<usize>)
    requires
        values@.len() == widths@.len(),
    ensures
        final(out)@ == old(out)@ + row_cells(views(values@), nat_seq(widths@), widths@.len() as int),
{
    let mut j: usize = 0;
    while j < widths.len()
        invariant
            j <= widths@.len(),
            values@.len() == widths@.len(),
            out@ == old(out)@ + row_cells(views(values@), nat_seq(widths@), j as int),
        decreases widths@.len() - j,
    {
        push_pad_cell(out, &values[j], widths[j]);
        j = j + 1;
    }
}

fn table_exec(cols: &Vec<Vec<char>>, rows: &Vec<Vec<Vec<char>>>) -> (r: Vec<char>)
    requires
        rectangular(grid(rows@), cols@.len() as int),
    ensures
        r@ == table_format(views(cols@), grid(rows@)),
{
    if rows.len() == 0 || cols.len() == 0 {
        return no_instances_text();
    }
    let ghost c = views(cols@);
    let ghost g = grid(rows@);
    let mut widths: Vec<usize> = Vec::new();
    let mut j: usize = 0;
    while j < cols.len()
        invariant
            j <= cols@.len(),
            c == views(cols@),
            g == grid(rows@),
            rectangular(g, cols@.len() as int),
            widths@.len() == j,
            forall|k: int| 0 <= k < j ==> #[trigger] widths@[k] as nat == content_width(
                c,
                g,
                k,
                g.len() as int,
            ),
        decreases cols@.len() - j,
    {
        widths.push(column_width(cols, rows, j));
        j = j + 1;
    }
    assert(nat_seq(widths@) =~= column_widths(c, g));
    let mut out: Vec<char> = Vec::new();
    push_row_cells(&mut out, cols, &widths);
    extend_str(&mut out, "\r\r\n");
    let ghost head = out@;
    let mut i: usize = 0;
    while i < rows.len()
        invariant
            i <= rows@.len(),
            c == views(cols@),
            g == grid(rows@),
            rectangular(g, cols@.len() as int),
            widths@.len() == cols@.len(),
            nat_seq(widths@) == column_widths(c, g),
            out@ == head + table_rows(g, column_widths(c, g), i as int),
        decreases rows@.len() - i,
    {
        assert(g[i as int] == views(rows@[i as int]@));
        assert(g[i as int].len() == cols@.len());
        push_row_cells(&mut out, &rows[i], &widths);
        extend_str(&mut out, "\r\r\n");
        i = i + 1;
    }
    out
}

fn csv_escape(v: &Vec<char>) -> (r: Vec<char>)
    ensures
        r@ == csv_escape_spec(v@),
{
    let mut special = false;
    let mut i: usize = 0;
    while i < v.len()
        invariant
            i <= v@.len(),
            special == exists|k: int|
                0 <= k < i && (v@[k] == ',' || v@[k] == '"' || v@[k] == '\r' || v@[k] == '\n'),
        decreases v@.len() - i,
    {
        let c = v[i];
        if c == ',' || c == '"' || c == '\r' || c == '\n' {
            special = true;
        }
        i = i + 1;
    }
    if !special {
        return crate::text::copy_chars(v);
    }
    let mut out: Vec<char> = Vec::new();
    out.push('"');
    let mut i: usize = 0;
    assert(v@.take(0) =~= Seq::<char>::empty());
    while i < v.len()
        invariant
            i <= v@.len(),
            out@ == seq!['"'] + double_quotes(v@.take(i as int)),
        decreases v@.len() - i,
    {
        let c = v[i];
        assert(v@.take(i + 1).drop_last() =~= v@.take(i as int));
        if c == '"' {
            out.push('"');
            out.push('"');
        } else {
            out.push(c);
        }
        i = i + 1;
        assert(out@ =~= seq!['"'] + double_quotes(v@.take(i as int)));
    }
    out.push('"');
    assert(v@.take(v@.len() as int) =~= v@);
    out
}

fn push_csv_fields(out: &mut Vec<char>, values: &Vec<Vec<char>>)
    ensures
        final(out)@ == old(out)@ + csv_fields(views(values@), values@.len() as int),
{
    let mut j: usize = 0;
    while j < values.len()
        invariant
            j <= values@.len(),
            out@ == old(out)@ + csv_fields(views(values@), j as int),
        decreases values@.len() - j,
    {
        out.push(',');
        let e = csv_escape(&values[j]);
        extend(out, &e);
        j = j + 1;
        assert(out@ =~= old(out)@ + csv_fields(views(values@), j as int));
    }
}

fn csv_exec(cols: &Vec<Vec<char>>, rows: &Vec<Vec<Vec<char>>>, node: &Vec<char>) -> (r: Vec<char>)
    requires
        rectangular(grid(rows@), cols@.len() as int),
    ensures
        r@ == csv_format(views(cols@), grid(rows@), node@),
{
    if rows.len() == 0 {
        return no_instances_text();
    }
    let ghost c = views(cols@);
    let ghost g = grid(rows@);
    let mut out = chars_of("\r\r\nNode");
    push_csv_fields(&mut out, cols);
    extend_str(&mut out, "\r\r\n");
    let ghost head = out@;
    let escaped_node = csv_escape(node);
    let mut i: usize = 0;
    while i < rows.len()
        invariant
            i <= rows@.len(),
            c == views(cols@),
            g == grid(rows@),
            rectangular(g, cols@.len() as int),
            escaped_node@ == csv_escape_spec(node@),
            out@ == head + csv_records(c, g, node@, i as int),
        decreases rows@.len() - i,
    {
        assert(g[i as int] == views(rows@[i as int]@));
        assert(g[i as int].len() == cols@.len());
        extend(&mut out, &escaped_node);
        push_csv_fields(&mut out, &rows[i]);
        extend_str(&mut out, "\r\r\n");
        i = i + 1;
    }
    out
}

fn xml_escape(v: &Vec<char>) -> (r: Vec<char>)
    ensures
        r@ == xml_escape_spec(v@),
{
    let mut out: Vec<char> = Vec::new();
    let mut i: usize = 0;
    assert(v@.take(0) =~= Seq::<char>::empty());
    while i < v.len()
        invariant
            i <= v@.len(),
            out@ == xml_escape_spec(v@.take(i as int)),
        decreases v@.len() - i,
    {
        let c = v[i];
        assert(v@.take(i + 1).drop_last() =~= v@.take(i as int));
        if c == '&' {
            extend_str(&mut out, "&amp;");
        } else if c == '<' {
            extend_str(&mut out, "&lt;");
        } else if c == '>' {
            extend_str(&mut out, "&gt;");
        } else if c == '"' {
            extend_str(&mut out, "&quot;");
        } else {
            out.push(c);
        }
        i = i + 1;
    }
    assert(v@.take(v@.len() as int) =~= v@);
    out
}

fn push_xml_properties(out: &mut Vec<char>, cols: &Vec<Vec<char>>, row: &Vec<Vec<char>>)
    requires
        row@.len() == cols@.len(),
    ensures
        final(out)@ == old(out)@ + xml_properties(views(cols@), views(row@), cols@.len() as int),
{
    let mut j: usize = 0;
    while j < cols.len()
        invariant
            j <= cols@.len(),
            row@.len() == cols@.len(),
            out@ == old(out)@ + xml_properties(views(cols@), views(row@), j as int),
        decreases cols@.len() - j,
    {
        extend_str(out, "<PROPERTY NAME=\"");
        extend(out, &xml_escape(&cols[j]));
        extend_str(out, "\"><VALUE>");
        extend(out, &xml_escape(&row[j]));
        extend_str(out, "</VALUE></PROPERTY>\r\n");
        j = j + 1;
    }
}

fn raw_xml_exec(cols: &Vec<Vec<char>>, rows: &Vec<Vec<Vec<char>>>) -> (r: Vec<char>)
    requires
        rectangular(grid(rows@), cols@.len() as int),
    ensures
        r@ == raw_xml_format(views(cols@), grid(rows@)),
{
    let ghost c = views(cols@);
    let ghost g = grid(rows@);
    let mut out = chars_of("<?xml version=\"1.0\"?>\r\n<COMMAND>\r\n<RESULTS>\r\n");
    let ghost head = out@;
    let mut i: usize = 0;
    while i < rows.len()
        invariant
            i <= rows@.len(),
            c == views(cols@),
            g == grid(rows@),
            rectangular(g, cols@.len() as int),
            out@ == head + xml_records(c, g, i as int),
        decreases rows@.len() - i,
    {
        assert(g[i as int] == views(rows@[i as int]@));
        assert(g[i as int].len() == cols@.len());
        extend_str(&mut out, "<CIM>\r\n<INSTANCE>\r\n");
        push_xml_properties(&mut out, cols, &rows[i]);
        extend_str(&mut out, "</INSTANCE>\r\n</CIM>\r\n");
        i = i + 1;
    }
    extend_str(&mut out, "</RESULTS>\r\n</COMMAND>\r\n");
    out
}

fn push_th_cells(out: &mut Vec<char>, cols: &Vec<Vec<char>>)
    ensures
        final(out)@ == old(out)@ + th_cells(views(cols@), cols@.len() as int),
{
    let mut j: usize = 0;
    while j < cols.len()
        invariant
            j <= cols@.len(),
            out@ == old(out)@ + th_cells(views(cols@), j as int),
        decreases cols@.len() - j,
    {
        extend_str(out, "<TH>");
        extend(out, &xml_escape(&cols[j]));
        extend_str(out, "</TH>");
        j = j + 1;
    }
}

fn push_td_cells(out: &mut Vec<char>, row: &Vec<Vec<char>>)
    ensures
        final(out)@ == old(out)@ + td_cells(views(row@), row@.len() as int),
{
    let mut j: usize = 0;
    while j < row.len()
        invariant
            j <= row@.len(),
            out@ == old(out)@ + td_cells(views(row@), j as int),
        decreases row@.len() - j,
    {
        extend_str(out, "<TD>");
        extend(out, &xml_escape(&row[j]));
        extend_str(out, "</TD>");
        j = j + 1;
    }
}

fn push_form_fields(out: &mut Vec<char>, cols: &Vec<Vec<char>>, row: &Vec<Vec<char>>)
    requires
        row@.len() == cols@.len(),
    ensures
        final(out)@ == old(out)@ + form_fields(views(cols@), views(row@), cols@.len() as int),
{
    let mut j: usize = 0;
    while j < cols.len()
        invariant
            j <= cols@.len(),
            row@.len() == cols@.len(),
            out@ == old(out)@ + form_fields(views(cols@), views(row@), j as int),
        decreases cols@.len() - j,
    {
        extend_str(out, "<B>");
        extend(out, &xml_escape(&cols[j]));
        extend_str(out, "</B>=");
        extend(out, &xml_escape(&row[j]));
        extend_str(out, "<BR>");
        j = j + 1;
    }
}

fn html_exec(cols: &Vec<Vec<char>>, rows: &Vec<Vec<Vec<char>>>, as_table: bool) -> (r: Vec<char>)
    requires
        rectangular(grid(rows@), cols@.len() as int),
    ensures
        r@ == html_format(views(cols@), grid(rows@), as_table),
{
    let ghost c = views(cols@);
    let ghost g = grid(rows@);
    let mut out = chars_of(HTML_HEAD);
    let ghost head = out@;
    if as_table {
        extend_str(&mut out, "<TABLE BORDER=\"1\"><TR>");
        push_th_cells(&mut out, cols);
        extend_str(&mut out, "</TR>");
        let ghost start = out@;
        let mut i: usize = 0;
        while i < rows.len()
            invariant
                i <= rows@.len(),
                c == views(cols@),
                g == grid(rows@),
                rectangular(g, cols@.len() as int),
                out@ == start + tr_rows(c, g, i as int),
            decreases rows@.len() - i,
        {
            assert(g[i as int] == views(rows@[i as int]@));
            assert(g[i as int].len() == cols@.len());
            extend_str(&mut out, "<TR>");
            push_td_cells(&mut out, &rows[i]);
            extend_str(&mut out, "</TR>");
            i = i + 1;
        }
        extend_str(&mut out, "</TABLE>");
    } else {
        let mut i: usize = 0;
        while i < rows.len()
            invariant
                i <= rows@.len(),
                c == views(cols@),
                g == grid(rows@),
                rectangular(g, cols@.len() as int),
                out@ == head + form_records(c, g, i as int),
            decreases rows@.len() - i,
        {
            assert(g[i as int] == views(rows@[i as int]@));
            assert(g[i as int].len() == cols@.len());
            push_form_fields(&mut out, cols, &rows[i]);
            extend_str(&mut out, "<BR>");
            i = i + 1;
        }
    }
    extend_str(&mut out, "</BODY></HTML>\r\n");
    out
}

/// Renders records in an output format; `node` is the computer name that CSV lines start with.
pub fn render(records: &[Record], requested: &[String], format: &OutputFormat, node: &str) -> (r:
    String)
    ensures
        r@ == render_spec(record_views(records@), strs(requested@), format@, node@),
{
    let cols = columns(records, requested);
    let rows = cell_grid(records, &cols);
    assert(rectangular(grid(rows@), cols@.len() as int));
    let out = match format {
        OutputFormat::Value | OutputFormat::List => value_exec(&cols, &rows),
        OutputFormat::Csv => {
            let n = chars_of(node);
            csv_exec(&cols, &rows, &n)
        },
        OutputFormat::RawXml => raw_xml_exec(&cols, &rows),
        OutputFormat::HForm => html_exec(&cols, &rows, false),
        OutputFormat::HTable => html_exec(&cols, &rows, true),
        OutputFormat::Table | OutputFormat::Custom(_) => table_exec(&cols, &rows),
    };
    string_of(&out)
}

} // verus!
