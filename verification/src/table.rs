//! The result renderer: from a rectangular, typed result set to the lines of
//! a bordered text table.
//!
//! A cell is first turned into text by the kind of its column. The width of
//! a column is the greatest length among its name and the texts of its
//! cells, counted in characters. Every header and data field is written as
//! `| `, the text, padding up to the column's width, and one more space; a
//! rule is one run of `-` per column, two longer than the column's width,
//! joined and bounded by `+`.

use vstd::prelude::*;
use crate::text::{decimal, format_integer, push_char, texts};

verus! {

/// The kind of value that a column is declared to hold.
#[derive(Clone, Copy, Debug, PartialEq, Eq, Structural)]
pub enum ValueKind {
    Text,
    Integer,
    Real,
    Unsupported,
}

/// One value of a row. `Real` holds the decimal text of a floating value;
/// `Absent` stands for a value that is missing or could not be read.
#[derive(Clone, Debug, PartialEq, Eq)]
pub enum Cell {
    Absent,
    Text(String),
    Integer(i64),
    Real(String),
}

/// The name and the declared kind of one column of a result set.
#[derive(Clone, Debug, PartialEq, Eq)]
pub struct ColumnDescriptor {
    pub name: String,
    pub kind: ValueKind,
}

/// What a result set shows: the column names and, row by row, the text of
/// every cell.
pub struct Grid {
    pub names: Seq<Seq<char>>,
    pub cells: Seq<Seq<Seq<char>>>,
}

/// The columns of a query result, in query order, and its rows. Every row
/// holds one cell per column.
#[derive(Debug)]
pub struct ResultSet {
    columns: Vec<ColumnDescriptor>,
    rows: Vec<Vec<Cell>>,
}

/// The text shown for a value that a column of kind `Real` or `Unsupported`
/// cannot show as a number.
pub open spec fn placeholder() -> Seq<char> {
    "Unsupported type"@
}

/// The single line that stands for a result without rows.
pub open spec fn no_results() -> Seq<char> {
    "No results found."@
}

/// The text of `cell` in a column of kind `kind`. A text column shows text
/// and an integer column shows the base-10 form of an integer; any other
/// cell in them is empty. A real column shows the text of a real value. So
/// does a column of unsupported kind, before it falls back on the
/// placeholder.
pub open spec fn cell_text(kind: ValueKind, cell: Cell) -> Seq<char> {
    match kind {
        ValueKind::Text => match cell {
            Cell::Text(s) => s@,
            _ => Seq::empty(),
        },
        ValueKind::Integer => match cell {
            Cell::Integer(n) => decimal(n as int),
            _ => Seq::empty(),
        },
        _ => match cell {
            Cell::Real(s) => s@,
            _ => placeholder(),
        },
    }
}

/// The kind that stands for a type name reported by the engine.
pub open spec fn kind_of(declared: Seq<char>) -> ValueKind {
    if declared == "TEXT"@ {
        ValueKind::Text
    } else if declared == "INTEGER"@ {
        ValueKind::Integer
    } else if declared == "REAL"@ {
        ValueKind::Real
    } else {
        ValueKind::Unsupported
    }
}

/// The names of `columns`, in order.
pub open spec fn column_names(columns: Seq<ColumnDescriptor>) -> Seq<Seq<char>> {
    Seq::new(columns.len(), |j: int| columns[j].name@)
}

/// The kinds of `columns`, in order.
pub open spec fn column_kinds(columns: Seq<ColumnDescriptor>) -> Seq<ValueKind> {
    Seq::new(columns.len(), |j: int| columns[j].kind)
}

/// The texts of the cells of one row, each by the kind of its column.
pub open spec fn row_texts(kinds: Seq<ValueKind>, row: Seq<Cell>) -> Seq<Seq<char>> {
    Seq::new(row.len(), |j: int| cell_text(kinds[j], row[j]))
}

/// Every row of `g` has one text per column.
pub open spec fn rectangular(g: Grid) -> bool {
    forall|i: int| 0 <= i < g.cells.len() ==> (#[trigger] g.cells[i]).len() == g.names.len()
}

/// The greater of `a` and `b`.
pub open spec fn max(a: nat, b: nat) -> nat {
    if a >= b {
        a
    } else {
        b
    }
}

/// The greatest length among the name of column `j` and its cells in the
/// first `n` rows.
pub open spec fn width_over(g: Grid, j: int, n: nat) -> nat
    decreases n,
{
    if n == 0 {
        g.names[j].len()
    } else {
        max(width_over(g, j, (n - 1) as nat), g.cells[n - 1][j].len())
    }
}

/// The display width of column `j`.
pub open spec fn column_width(g: Grid, j: int) -> nat {
    width_over(g, j, g.cells.len())
}

/// The display widths of all columns.
pub open spec fn widths(g: Grid) -> Seq<nat> {
    Seq::new(g.names.len(), |j: int| column_width(g, j))
}

/// `n` times the character `c`.
pub open spec fn repeated(c: char, n: nat) -> Seq<char> {
    Seq::new(n, |i: int| c)
}

/// The number of spaces that fill a text of length `len` up to `width`.
pub open spec fn padding(len: nat, width: nat) -> nat {
    if len < width {
        (width - len) as nat
    } else {
        0
    }
}

/// One field of a header or data line.
pub open spec fn field(text: Seq<char>, width: nat) -> Seq<char> {
    seq!['|', ' '] + text + repeated(' ', padding(text.len(), width)) + seq![' ']
}

/// The first `n` fields of a line.
pub open spec fn fields(row: Seq<Seq<char>>, ws: Seq<nat>, n: nat) -> Seq<char>
    decreases n,
{
    if n == 0 {
        Seq::empty()
    } else {
        fields(row, ws, (n - 1) as nat) + field(row[n - 1], ws[n - 1])
    }
}

/// A header or data line: one field per column, closed by `|`.
pub open spec fn row_line(row: Seq<Seq<char>>, ws: Seq<nat>) -> Seq<char> {
    fields(row, ws, ws.len()) + seq!['|']
}

/// The runs of `-` of the first `n` columns, joined by `+`.
pub open spec fn segments(ws: Seq<nat>, n: nat) -> Seq<char>
    decreases n,
{
    if n == 0 {
        Seq::empty()
    } else if n == 1 {
        repeated('-', ws[0] + 2)
    } else {
        segments(ws, (n - 1) as nat) + seq!['+'] + repeated('-', ws[n - 1] + 2)
    }
}

/// A border line.
pub open spec fn rule(ws: Seq<nat>) -> Seq<char> {
    seq!['+'] + segments(ws, ws.len()) + seq!['+']
}

/// The data lines of `g`, one per row.
pub open spec fn data_lines(g: Grid) -> Seq<Seq<char>> {
    Seq::new(g.cells.len(), |i: int| row_line(g.cells[i], widths(g)))
}

/// The lines that show `g`: for a grid without rows the one line that says
/// so; else a rule, the header, a rule, the data lines and a rule.
pub open spec fn table(g: Grid) -> Seq<Seq<char>> {
    if g.cells.len() == 0 {
        seq![no_results()]
    } else {
        seq![rule(widths(g)), row_line(g.names, widths(g)), rule(widths(g))] + data_lines(g)
            + seq![rule(widths(g))]
    }
}

/// The grid made of names and of rows of texts.
pub open spec fn grid_of(names: Seq<String>, cells: Seq<Vec<String>>) -> Grid {
    Grid { names: texts(names), cells: Seq::new(cells.len(), |i: int| texts(cells[i]@)) }
}

/// The widths of `ws` as natural numbers.
pub open spec fn nats(ws: Seq<usize>) -> Seq<nat> {
    Seq::new(ws.len(), |j: int| ws[j] as nat)
}

impl ValueKind {
    /// Maps the type name that the engine reports for a column to a kind:
    /// `TEXT`, `INTEGER` and `REAL` to their kinds, any other name to
    /// `Unsupported`.
    pub fn from_declared_type(declared: &str) -> (kind: ValueKind)
        ensures
            kind == kind_of(declared@),
    {
        let name = String::from_str(declared);
        if name == String::from_str("TEXT") {
            ValueKind::Text
        } else if name == String::from_str("INTEGER") {
            ValueKind::Integer
        } else if name == String::from_str("REAL") {
            ValueKind::Real
        } else {
            ValueKind::Unsupported
        }
    }
}

impl Cell {
    /// The text of this cell in a column of kind `kind`.
    pub fn render(&self, kind: ValueKind) -> (s: String)
        ensures
            s@ == cell_text(kind, *self),
    {
        match kind {
            ValueKind::Text => match self {
                Cell::Text(t) => t.clone(),
                _ => String::new(),
            },
            ValueKind::Integer => match self {
                Cell::Integer(n) => format_integer(*n),
                _ => String::new(),
            },
            _ => match self {
                Cell::Real(t) => t.clone(),
                _ => String::from_str("Unsupported type"),
            },
        }
    }
}

/// The grid that `columns` and `rows` show.
pub open spec fn grid_from(columns: Seq<ColumnDescriptor>, rows: Seq<Vec<Cell>>) -> Grid {
    Grid {
        names: column_names(columns),
        cells: Seq::new(rows.len(), |i: int| row_texts(column_kinds(columns), rows[i]@)),
    }
}

/// Every row holds `n` cells.
pub open spec fn rows_of_len(rows: Seq<Vec<Cell>>, n: nat) -> bool {
    forall|i: int| 0 <= i < rows.len() ==> (#[trigger] rows[i])@.len() == n
}

impl View for ResultSet {
    type V = Grid;

    closed spec fn view(&self) -> Grid {
        grid_from(self.columns@, self.rows@)
    }
}

impl ResultSet {
    #[verifier::type_invariant]
    spec fn well_formed(self) -> bool {
        rows_of_len(self.rows@, self.columns@.len())
    }

    /// The kinds of the columns, in order.
    pub closed spec fn kinds(&self) -> Seq<ValueKind> {
        column_kinds(self.columns@)
    }

    /// The result set of `columns` and `rows`, where every row holds one
    /// cell per column; `None` where some row does not.
    pub fn new(columns: Vec<ColumnDescriptor>, rows: Vec<Vec<Cell>>) -> (made: Option<ResultSet>)
        ensures
            made is Some <==> rows_of_len(rows@, columns@.len()),
            made matches Some(rs) ==> {
                &&& rs@ == grid_from(columns@, rows@)
                &&& rs.kinds() == column_kinds(columns@)
                &&& rectangular(rs@)
            },
    {
        let mut i: usize = 0;
        while i < rows.len()
            invariant
                i <= rows.len(),
                forall|k: int| 0 <= k < i ==> (#[trigger] rows@[k])@.len() == columns@.len(),
            decreases rows.len() - i,
        {
            if rows[i].len() != columns.len() {
                return None;
            }
            i += 1;
        }
        Some(ResultSet { columns, rows })
    }

    /// The number of columns.
    pub fn column_count(&self) -> (n: usize)
        ensures
            n == self@.names.len(),
            n == self.kinds().len(),
    {
        self.columns.len()
    }

    /// The number of rows.
    pub fn row_count(&self) -> (n: usize)
        ensures
            n == self@.cells.len(),
            rectangular(self@),
    {
        proof {
            use_type_invariant(self);
        }
        self.rows.len()
    }
}

/// Appends `n` copies of `c` to `s`.
fn push_repeated(s: &mut String, c: char, n: usize)
    ensures
        final(s)@ == old(s)@ + repeated(c, n as nat),
{
    let mut i: usize = 0;
    assert(s@ =~= old(s)@ + repeated(c, 0));
    while i < n
        invariant
            i <= n,
            s@ == old(s)@ + repeated(c, i as nat),
        decreases n - i,
    {
        push_char(s, c);
        i += 1;
        assert(s@ =~= old(s)@ + repeated(c, i as nat));
    }
}

/// Appends the field that shows `text` in a column of width `width`.
fn push_field(line: &mut String, text: &String, width: usize)
    ensures
        final(line)@ == old(line)@ + field(text@, width as nat),
{
    push_char(line, '|');
    push_char(line, ' ');
    line.append(text.as_str());
    let len: usize = text.as_str().unicode_len();
    if len < width {
        push_repeated(line, ' ', width - len);
    }
    push_char(line, ' ');
    assert(line@ =~= old(line)@ + field(text@, width as nat));
}

/// The header or data line that shows `row` in columns of widths `ws`.
fn make_row_line(row: &Vec<String>, ws: &Vec<usize>) -> (line: String)
    requires
        row.len() == ws.len(),
    ensures
        line@ == row_line(texts(row@), nats(ws@)),
{
    let mut line = String::new();
    let mut j: usize = 0;
    while j < ws.len()
        invariant
            j <= ws.len(),
            row.len() == ws.len(),
            line@ == fields(texts(row@), nats(ws@), j as nat),
        decreases ws.len() - j,
    {
        push_field(&mut line, &row[j], ws[j]);
        j += 1;
    }
    push_char(&mut line, '|');
    line
}

/// The border line for columns of widths `ws`.
fn make_rule(ws: &Vec<usize>) -> (line: String)
    ensures
        line@ == rule(nats(ws@)),
{
    let mut line = String::new();
    push_char(&mut line, '+');
    let mut j: usize = 0;
    assert(line@ =~= seq!['+'] + segments(nats(ws@), 0));
    while j < ws.len()
        invariant
            j <= ws.len(),
            line@ == seq!['+'] + segments(nats(ws@), j as nat),
        decreases ws.len() - j,
    {
        let ghost before = line@;
        if j > 0 {
            push_char(&mut line, '+');
        }
        push_repeated(&mut line, '-', ws[j]);
        push_char(&mut line, '-');
        push_char(&mut line, '-');
        proof {
            let w = ws[j as int] as nat;
            assert(repeated('-', w).push('-').push('-') =~= repeated('-', w + 2));
            assert(nats(ws@)[j as int] == w);
            if j > 0 {
                assert(line@ =~= before + seq!['+'] + repeated('-', w + 2));
            } else {
                assert(line@ =~= before + repeated('-', w + 2));
            }
        }
        j += 1;
        assert(line@ =~= seq!['+'] + segments(nats(ws@), j as nat));
    }
    push_char(&mut line, '+');
    assert(line@ =~= rule(nats(ws@)));
    line
}

/// The display width of every column of the grid of `names` and `cells`.
fn measure(names: &Vec<String>, cells: &Vec<Vec<String>>) -> (ws: Vec<usize>)
    requires
        rectangular(grid_of(names@, cells@)),
    ensures
        nats(ws@) == widths(grid_of(names@, cells@)),
{
    let ghost g = grid_of(names@, cells@);
    let mut ws: Vec<usize> = Vec::new();
    let mut j: usize = 0;
    while j < names.len()
        invariant
            j <= names.len(),
            g == grid_of(names@, cells@),
            rectangular(g),
            ws.len() == j,
            forall|k: int| 0 <= k < j ==> #[trigger] ws@[k] as nat == column_width(g, k),
        decreases names.len() - j,
    {
        let mut w: usize = names[j].as_str().unicode_len();
        let mut i: usize = 0;
        while i < cells.len()
            invariant
                i <= cells.len(),
                j < names.len(),
                g == grid_of(names@, cells@),
                rectangular(g),
                w as nat == width_over(g, j as int, i as nat),
            decreases cells.len() - i,
        {
            assert(g.cells[i as int].len() == g.names.len());
            let len: usize = cells[i][j].as_str().unicode_len();
            if len > w {
                w = len;
            }
            i += 1;
        }
        ws.push(w);
        j += 1;
    }
    assert(nats(ws@) =~= widths(g));
    ws
}

/// The lines of the table that shows `names` over the rows `cells`.
fn lay_out(names: &Vec<String>, cells: &Vec<Vec<String>>) -> (lines: Vec<String>)
    requires
        rectangular(grid_of(names@, cells@)),
        cells.len() > 0,
    ensures
        texts(lines@) == table(grid_of(names@, cells@)),
{
    let ghost g = grid_of(names@, cells@);
    let ws = measure(names, cells);
    let border = make_rule(&ws);
    let mut lines: Vec<String> = Vec::new();
    lines.push(border.clone());
    lines.push(make_row_line(names, &ws));
    lines.push(border.clone());
    let ghost head = seq![rule(widths(g)), row_line(g.names, widths(g)), rule(widths(g))];
    assert(texts(lines@) =~= head);
    let mut i: usize = 0;
    while i < cells.len()
        invariant
            i <= cells.len(),
            g == grid_of(names@, cells@),
            rectangular(g),
            nats(ws@) == widths(g),
            ws.len() == names.len(),
            lines.len() == 3 + i,
            texts(lines@) == head + data_lines(g).take(i as int),
        decreases cells.len() - i,
    {
        assert(g.cells[i as int].len() == g.names.len());
        let ghost before = texts(lines@);
        lines.push(make_row_line(&cells[i], &ws));
        i += 1;
        assert(texts(lines@) =~= before.push(data_lines(g)[i - 1]));
        assert(data_lines(g).take(i as int) =~= data_lines(g).take(i - 1).push(data_lines(g)[i - 1]));
        assert(texts(lines@) =~= head + data_lines(g).take(i as int));
    }
    assert(data_lines(g).take(i as int) =~= data_lines(g));
    let ghost body = texts(lines@);
    lines.push(border);
    assert(texts(lines@) =~= body.push(rule(widths(g))));
    assert(texts(lines@) =~= table(g));
    lines
}

/// The lines of the table that shows `rs`.
fn draw(rs: &ResultSet) -> (lines: Vec<String>)
    ensures
        texts(lines@) == table(rs@),
        rectangular(rs@),
{
    proof {
        use_type_invariant(rs);
    }
    let mut lines: Vec<String> = Vec::new();
    if rs.rows.len() == 0 {
        lines.push(String::from_str("No results found."));
        assert(texts(lines@) =~= table(rs@));
        return lines;
    }
    let mut names: Vec<String> = Vec::new();
    let mut j: usize = 0;
    while j < rs.columns.len()
        invariant
            j <= rs.columns.len(),
            names.len() == j,
            forall|k: int| 0 <= k < j ==> (#[trigger] names@[k])@ == rs.columns@[k].name@,
        decreases rs.columns.len() - j,
    {
        names.push(rs.columns[j].name.clone());
        j += 1;
    }
    let mut cells: Vec<Vec<String>> = Vec::new();
    let mut i: usize = 0;
    while i < rs.rows.len()
        invariant
            i <= rs.rows.len(),
            cells.len() == i,
            rows_of_len(rs.rows@, rs.columns@.len()),
            forall|k: int| 0 <= k < i ==> texts((#[trigger] cells@[k])@) == rs@.cells[k],
        decreases rs.rows.len() - i,
    {
        let mut row: Vec<String> = Vec::new();
        let mut j: usize = 0;
        assert(rs.rows@[i as int]@.len() == rs.columns@.len());
        while j < rs.columns.len()
            invariant
                i < rs.rows.len(),
                j <= rs.columns.len(),
                rs.rows@[i as int]@.len() == rs.columns@.len(),
                row.len() == j,
                forall|k: int|
                    0 <= k < j ==> (#[trigger] row@[k])@ == cell_text(
                        rs.columns@[k].kind,
                        rs.rows@[i as int]@[k],
                    ),
            decreases rs.columns.len() - j,
        {
            row.push(rs.rows[i][j].render(rs.columns[j].kind));
            j += 1;
        }
        assert(texts(row@) =~= rs@.cells[i as int]);
        cells.push(row);
        i += 1;
    }
    assert(grid_of(names@, cells@).names =~= rs@.names);
    assert(grid_of(names@, cells@).cells =~= rs@.cells);
    lay_out(&names, &cells)
}

/// Renders a result set as the lines of a text table: the line
/// `No results found.` for a result without rows; else a border, the header,
/// a border, one line per row and a border, each column as wide as the
/// longest of its name and its cell texts. All lines of a table with at
/// least one column are equally long.
pub fn render(rs: &ResultSet) -> (lines: Vec<String>)
    ensures
        texts(lines@) == table(rs@),
        rectangular(rs@),
        rs@.cells.len() == 0 ==> lines.len() == 1,
        rs@.cells.len() > 0 ==> lines.len() == rs@.cells.len() + 4,
        rs@.cells.len() == 0 || rs@.names.len() >= 1 ==> forall|a: int, b: int|
            0 <= a < lines.len() && 0 <= b < lines.len() ==> (#[trigger] lines[a])@.len() == (
            #[trigger] lines[b])@.len(),
{
    let lines = draw(rs);
    proof {
        lemma_line_count(rs@);
        if rs@.cells.len() == 0 || rs@.names.len() >= 1 {
            assert forall|a: int, b: int|
                0 <= a < lines.len() && 0 <= b < lines.len() implies (#[trigger] lines[a])@.len()
                == (#[trigger] lines[b])@.len() by {
                lemma_lines_equally_long(rs@, a, b);
                assert(texts(lines@)[a] == lines[a]@);
                assert(texts(lines@)[b] == lines[b]@);
            }
        }
    }
    lines
}

/// The summed lengths of the first `n` fields of a line in columns of
/// widths `ws`.
pub open spec fn span(ws: Seq<nat>, n: nat) -> nat
    decreases n,
{
    if n == 0 {
        0
    } else {
        span(ws, (n - 1) as nat) + ws[n - 1] + 3
    }
}

/// `g` with the text of the cell in row `i` and column `j` replaced.
pub open spec fn with_cell(g: Grid, i: int, j: int, text: Seq<char>) -> Grid {
    Grid { names: g.names, cells: g.cells.update(i, g.cells[i].update(j, text)) }
}

proof fn lemma_width_over_is_max(g: Grid, j: int, n: nat)
    ensures
        g.names[j].len() <= width_over(g, j, n),
        forall|i: int| 0 <= i < n ==> (#[trigger] g.cells[i])[j].len() <= width_over(g, j, n),
        width_over(g, j, n) == g.names[j].len() || exists|i: int|
            0 <= i < n && (#[trigger] g.cells[i])[j].len() == width_over(g, j, n),
    decreases n,
{
    if n > 0 {
        let m = (n - 1) as nat;
        lemma_width_over_is_max(g, j, m);
        if width_over(g, j, n) == g.cells[n - 1][j].len() {
            assert(0 <= n - 1 < n && g.cells[n - 1][j].len() == width_over(g, j, n));
        } else if width_over(g, j, m) != g.names[j].len() {
            let i = choose|i: int| 0 <= i < m && (#[trigger] g.cells[i])[j].len() == width_over(g, j, m);
            assert(0 <= i < n && g.cells[i][j].len() == width_over(g, j, n));
        }
    }
}

proof fn lemma_width_over_same(g: Grid, h: Grid, j: int, n: nat)
    requires
        g.names[j].len() == h.names[j].len(),
        forall|i: int| 0 <= i < n ==> (#[trigger] g.cells[i])[j].len() == h.cells[i][j].len(),
    ensures
        width_over(g, j, n) == width_over(h, j, n),
    decreases n,
{
    if n > 0 {
        lemma_width_over_same(g, h, j, (n - 1) as nat);
        assert(g.cells[n - 1][j].len() == h.cells[n - 1][j].len());
    }
}

proof fn lemma_fields_len(row: Seq<Seq<char>>, ws: Seq<nat>, n: nat)
    requires
        forall|k: int| 0 <= k < n ==> (#[trigger] row[k]).len() <= ws[k],
    ensures
        fields(row, ws, n).len() == span(ws, n),
    decreases n,
{
    if n > 0 {
        lemma_fields_len(row, ws, (n - 1) as nat);
        assert(row[n - 1].len() <= ws[n - 1]);
    }
}

proof fn lemma_segments_len(ws: Seq<nat>, n: nat)
    requires
        n >= 1,
    ensures
        segments(ws, n).len() + 1 == span(ws, n),
    decreases n,
{
    if n > 1 {
        lemma_segments_len(ws, (n - 1) as nat);
    } else {
        assert(span(ws, 0) == 0);
    }
}

/// The width of a column is the greatest length among its name and the
/// texts of its cells: no name or cell text of the column is longer, and
/// one of them is exactly that long.
pub proof fn lemma_column_width_is_max(g: Grid, j: int)
    ensures
        g.names[j].len() <= column_width(g, j),
        forall|i: int|
            0 <= i < g.cells.len() ==> (#[trigger] g.cells[i])[j].len() <= column_width(g, j),
        column_width(g, j) == g.names[j].len() || exists|i: int|
            0 <= i < g.cells.len() && (#[trigger] g.cells[i])[j].len() == column_width(g, j),
{
    lemma_width_over_is_max(g, j, g.cells.len());
}

/// A change of one cell's text leaves every column width as it was, where
/// the new text is no longer than the column is wide and the width is still
/// the length of the new text, of the column's name or of another cell of
/// the column.
pub proof fn lemma_width_stable(g: Grid, i: int, j: int, text: Seq<char>)
    requires
        rectangular(g),
        0 <= i < g.cells.len(),
        0 <= j < g.names.len(),
        text.len() <= column_width(g, j),
        text.len() == column_width(g, j) || g.names[j].len() == column_width(g, j) || exists|r: int|
            0 <= r < g.cells.len() && r != i && (#[trigger] g.cells[r])[j].len() == column_width(
                g,
                j,
            ),
    ensures
        rectangular(with_cell(g, i, j, text)),
        widths(with_cell(g, i, j, text)) == widths(g),
{
    let h = with_cell(g, i, j, text);
    assert(g.cells[i].len() == g.names.len());
    assert forall|r: int| 0 <= r < h.cells.len() implies (#[trigger] h.cells[r]).len()
        == h.names.len() by {
        assert(g.cells[r].len() == g.names.len());
    }
    assert forall|k: int| 0 <= k < g.names.len() implies column_width(h, k) == column_width(
        g,
        k,
    ) by {
        if k != j {
            assert forall|r: int| 0 <= r < g.cells.len() implies (#[trigger] h.cells[r])[k].len()
                == g.cells[r][k].len() by {
                assert(g.cells[r].len() == g.names.len());
            }
            lemma_width_over_same(h, g, k, g.cells.len());
        } else {
            let w = column_width(g, j);
            lemma_width_over_is_max(g, j, g.cells.len());
            lemma_width_over_is_max(h, j, h.cells.len());
            assert(h.cells[i][j] == text);
            assert forall|r: int| 0 <= r < h.cells.len() implies (#[trigger] h.cells[r])[j].len()
                <= w by {
                if r != i {
                    assert(h.cells[r] == g.cells[r]);
                    assert(g.cells[r][j].len() <= w);
                }
            }
            if text.len() == w {
                assert(h.cells[i][j].len() <= column_width(h, j));
            } else if g.names[j].len() != w {
                let r = choose|r: int|
                    0 <= r < g.cells.len() && r != i && (#[trigger] g.cells[r])[j].len() == w;
                assert(h.cells[r] == g.cells[r]);
                assert(h.cells[r][j].len() <= column_width(h, j));
            }
            if column_width(h, j) != h.names[j].len() {
                let r = choose|r: int|
                    0 <= r < h.cells.len() && (#[trigger] h.cells[r])[j].len() == column_width(
                        h,
                        j,
                    );
                assert(h.cells[r][j].len() <= w);
            }
        }
    }
    assert(widths(h) =~= widths(g));
}

/// The length of every line of the table of `g`, where `g` has rows and at
/// least one column.
pub open spec fn line_width(g: Grid) -> nat {
    span(widths(g), g.names.len()) + 1
}

/// A grid without rows is shown in one line; any other grid in four lines
/// more than it has rows.
pub proof fn lemma_line_count(g: Grid)
    ensures
        g.cells.len() == 0 ==> table(g).len() == 1,
        g.cells.len() > 0 ==> table(g).len() == g.cells.len() + 4,
{
}

/// Every line of the table of a rectangular grid with rows and at least one
/// column is `line_width` characters long.
pub proof fn lemma_line_width(g: Grid, a: int)
    requires
        rectangular(g),
        g.cells.len() > 0,
        g.names.len() >= 1,
        0 <= a < table(g).len(),
    ensures
        table(g)[a].len() == line_width(g),
{
    let ws = widths(g);
    let m = g.names.len();
    lemma_segments_len(ws, m);
    assert forall|k: int| 0 <= k < m implies (#[trigger] g.names[k]).len() <= ws[k] by {
        lemma_column_width_is_max(g, k);
    }
    lemma_fields_len(g.names, ws, m);
    if 3 <= a < 3 + g.cells.len() {
        let i = a - 3;
        assert(table(g)[a] == data_lines(g)[i]);
        assert(g.cells[i].len() == m);
        assert forall|k: int| 0 <= k < m implies (#[trigger] g.cells[i][k]).len() <= ws[k] by {
            lemma_column_width_is_max(g, k);
        }
        lemma_fields_len(g.cells[i], ws, m);
    }
}

/// All lines of the table of a rectangular grid are equally long, where the
/// grid has no rows or at least one column.
pub proof fn lemma_lines_equally_long(g: Grid, a: int, b: int)
    requires
        rectangular(g),
        g.cells.len() == 0 || g.names.len() >= 1,
        0 <= a < table(g).len(),
        0 <= b < table(g).len(),
    ensures
        table(g)[a].len() == table(g)[b].len(),
{
    if g.cells.len() > 0 {
        lemma_line_width(g, a);
        lemma_line_width(g, b);
    }
}

/// A cell that holds a real value shows the text of that value in a column
/// of unsupported kind, as it does in a real column: the placeholder is for
/// cells that hold none.
pub proof fn lemma_real_before_placeholder(cell: Cell)
    requires
        cell is Real,
    ensures
        cell_text(ValueKind::Unsupported, cell) == cell->Real_0@,
        cell_text(ValueKind::Real, cell) == cell->Real_0@,
{
}

} // verus!
