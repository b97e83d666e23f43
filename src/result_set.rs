use vstd::prelude::*;
use sqlx::sqlite::SqliteRow;
use sqlx::{Column, Row};
use crate::error::DbError;

verus! {

#[verifier::external_type_specification]
#[verifier::external_body]
pub struct ExSqliteRow(SqliteRow);

/// The names of a row's columns in position order, as sqlx's `Row::columns`
/// and `Column::name` give them.
pub uninterp spec fn row_column_names(row: SqliteRow) -> Seq<Seq<char>>;

/// Relies on sqlx's `Row::columns` and `Column::name`: the names of the row's
/// columns, in position order.
#[verifier::external_body]
fn column_names_of(row: &SqliteRow) -> (r: Vec<String>)
    ensures
        names_view(r@) == row_column_names(*row),
{
    row.columns().iter().map(|c| c.name().to_string()).collect()
}

/// The names of a column list, as text.
pub open spec fn names_view(cols: Seq<String>) -> Seq<Seq<char>> {
    cols.map_values(|s: String| s@)
}

/// The column index of a list of rows: the column names of the first row,
/// and none when there are no rows. Later rows are not looked at.
fn get_columns(rows: &Vec<SqliteRow>) -> (r: Vec<String>)
    ensures
        rows@.len() == 0 ==> r@.len() == 0,
        rows@.len() > 0 ==> names_view(r@) == row_column_names(rows@[0]),
{
    if rows.len() == 0 {
        Vec::new()
    } else {
        column_names_of(&rows[0])
    }
}

/// Whether `i` is the position of the last column named `name`.
pub open spec fn is_last_position(names: Seq<Seq<char>>, name: Seq<char>, i: int) -> bool {
    0 <= i < names.len() && names[i] == name && forall|j: int| i < j < names.len() ==> names[j] != name
}

/// The position a name resolves to in a column index: its last occurrence.
pub open spec fn column_position(names: Seq<Seq<char>>, name: Seq<char>) -> int {
    choose|i: int| is_last_position(names, name, i)
}

/// A name has at most one last position.
proof fn lemma_last_position_unique(names: Seq<Seq<char>>, name: Seq<char>, i: int, j: int)
    requires
        is_last_position(names, name, i),
        is_last_position(names, name, j),
    ensures
        i == j,
{
}

/// When a name occurs, it resolves to position `i` exactly when `i` is its
/// last occurrence.
proof fn lemma_column_position(names: Seq<Seq<char>>, name: Seq<char>, i: int)
    requires
        is_last_position(names, name, i),
    ensures
        column_position(names, name) == i,
{
    let c = column_position(names, name);
    assert(is_last_position(names, name, c));
    lemma_last_position_unique(names, name, i, c);
}

/// The position of the last column with the given name, or `None` when no
/// column has it. The last one is kept so that, when names repeat, later
/// columns shadow earlier ones.
fn find_column(columns: &Vec<String>, name: &str) -> (r: Option<usize>)
    ensures
        r is None <==> !names_view(columns@).contains(name@),
        r matches Some(i) ==> is_last_position(names_view(columns@), name@, i as int),
{
    let key = String::from_str(name);
    let mut k: usize = columns.len();
    while k > 0
        invariant
            k <= columns@.len(),
            key@ == name@,
            forall|j: int| k <= j < columns@.len() ==> columns@[j]@ != name@,
        decreases k,
    {
        k = k - 1;
        if columns[k] == key {
            assert(names_view(columns@)[k as int] == name@);
            return Some(k);
        }
    }
    proof {
        if names_view(columns@).contains(name@) {
            let j = choose|j: int| 0 <= j < names_view(columns@).len() && names_view(columns@)[j] == name@;
            assert(columns@[j]@ == name@);
        }
    }
    None
}

/// A type a cell of a row can be read as.
pub trait ColumnValue: Sized {
    /// The cell at a position of a row read as this type, or `None` where it
    /// cannot be.
    spec fn cell_at(row: SqliteRow, index: usize) -> Option<Self>;

    /// Reads the cell at the given position of the row.
    fn read_at(row: &SqliteRow, index: usize) -> (r: Result<Self, sqlx::Error>)
        ensures
            r is Ok <==> Self::cell_at(*row, index) is Some,
            r matches Ok(v) ==> Self::cell_at(*row, index) == Some(v),
    ;
}

/// The cell at a position of a row decoded as `i32` by sqlx's `Row::try_get`,
/// or `None` where that decode fails.
pub uninterp spec fn cell_i32(row: SqliteRow, index: usize) -> Option<i32>;

/// Relies on sqlx's `Row::try_get`, decoding the cell at a position as `i32`;
/// the outcome depends on the row's stored values and the position alone.
#[verifier::external_body]
fn read_i32(row: &SqliteRow, index: usize) -> (r: Result<i32, sqlx::Error>)
    ensures
        r is Ok <==> cell_i32(*row, index) is Some,
        r matches Ok(v) ==> cell_i32(*row, index) == Some(v),
{
    row.try_get(index)
}

impl ColumnValue for i32 {
    open spec fn cell_at(row: SqliteRow, index: usize) -> Option<i32> {
        cell_i32(row, index)
    }

    fn read_at(row: &SqliteRow, index: usize) -> (r: Result<i32, sqlx::Error>) {
        read_i32(row, index)
    }
}

/// The cell at a position of a row decoded as `i64` by sqlx's `Row::try_get`,
/// or `None` where that decode fails.
pub uninterp spec fn cell_i64(row: SqliteRow, index: usize) -> Option<i64>;

/// Relies on sqlx's `Row::try_get`, decoding the cell at a position as `i64`;
/// the outcome depends on the row's stored values and the position alone.
#[verifier::external_body]
fn read_i64(row: &SqliteRow, index: usize) -> (r: Result<i64, sqlx::Error>)
    ensures
        r is Ok <==> cell_i64(*row, index) is Some,
        r matches Ok(v) ==> cell_i64(*row, index) == Some(v),
{
    row.try_get(index)
}

impl ColumnValue for i64 {
    open spec fn cell_at(row: SqliteRow, index: usize) -> Option<i64> {
        cell_i64(row, index)
    }

    fn read_at(row: &SqliteRow, index: usize) -> (r: Result<i64, sqlx::Error>) {
        read_i64(row, index)
    }
}

/// The cell at a position of a row decoded as text by sqlx's `Row::try_get`,
/// or `None` where that decode fails.
pub uninterp spec fn cell_text(row: SqliteRow, index: usize) -> Option<String>;

/// Relies on sqlx's `Row::try_get`, decoding the cell at a position as text;
/// the outcome depends on the row's stored values and the position alone.
#[verifier::external_body]
fn read_string(row: &SqliteRow, index: usize) -> (r: Result<String, sqlx::Error>)
    ensures
        r is Ok <==> cell_text(*row, index) is Some,
        r matches Ok(v) ==> cell_text(*row, index) == Some(v),
{
    row.try_get(index)
}

impl ColumnValue for String {
    open spec fn cell_at(row: SqliteRow, index: usize) -> Option<String> {
        cell_text(row, index)
    }

    fn read_at(row: &SqliteRow, index: usize) -> (r: Result<String, sqlx::Error>) {
        read_string(row, index)
    }
}

/// The cell at a position of a row decoded as `bool` by sqlx's `Row::try_get`,
/// or `None` where that decode fails.
pub uninterp spec fn cell_bool(row: SqliteRow, index: usize) -> Option<bool>;

/// Relies on sqlx's `Row::try_get`, decoding the cell at a position as `bool`;
/// the outcome depends on the row's stored values and the position alone.
#[verifier::external_body]
fn read_bool(row: &SqliteRow, index: usize) -> (r: Result<bool, sqlx::Error>)
    ensures
        r is Ok <==> cell_bool(*row, index) is Some,
        r matches Ok(v) ==> cell_bool(*row, index) == Some(v),
{
    row.try_get(index)
}

impl ColumnValue for bool {
    open spec fn cell_at(row: SqliteRow, index: usize) -> Option<bool> {
        cell_bool(row, index)
    }

    fn read_at(row: &SqliteRow, index: usize) -> (r: Result<bool, sqlx::Error>) {
        read_bool(row, index)
    }
}

/// All rows a query returned, with the index of their column names.
pub struct ResultSet {
    rows: Vec<SqliteRow>,
    columns: Vec<String>,
}

/// One row of a result set, read through the set's column index.
pub struct RowData<'a> {
    row: &'a SqliteRow,
    columns: &'a Vec<String>,
}

impl ResultSet {
    /// The rows, in the order the engine returned them.
    pub closed spec fn rows_spec(&self) -> Seq<SqliteRow> {
        self.rows@
    }

    /// The number of rows.
    pub closed spec fn row_count(&self) -> nat {
        self.rows@.len()
    }

    /// The column index: column names by position.
    pub closed spec fn column_names(&self) -> Seq<Seq<char>> {
        names_view(self.columns@)
    }

    /// The column index holds the first row's column names, and is empty
    /// when there are no rows.
    pub closed spec fn wf(&self) -> bool {
        &&& self.rows@.len() == 0 ==> self.columns@.len() == 0
        &&& self.rows@.len() > 0 ==> names_view(self.columns@) == row_column_names(self.rows@[0])
    }

    /// The result set of the rows a query returned, in the same order,
    /// indexed by the column names of the first row.
    pub fn from_rows(rows: Vec<SqliteRow>) -> (r: ResultSet)
        ensures
            r.wf(),
            r.rows_spec() == rows@,
            r.row_count() == rows@.len(),
            rows@.len() == 0 ==> r.column_names() == Seq::<Seq<char>>::empty(),
            rows@.len() > 0 ==> r.column_names() == row_column_names(rows@[0]),
    {
        let columns = get_columns(&rows);
        let r = ResultSet { rows, columns };
        assert(rows@.len() == 0 ==> r.column_names() =~= Seq::<Seq<char>>::empty());
        r
    }

    /// The number of rows.
    pub fn rows(&self) -> (r: usize)
        ensures
            r == self.row_count(),
    {
        self.rows.len()
    }

    /// The position of a column by name: the last column of that name, or
    /// `None` when the index has no such name.
    pub fn column_index(&self, name: &str) -> (r: Option<usize>)
        ensures
            r is None <==> !self.column_names().contains(name@),
            r matches Some(i) ==> is_last_position(self.column_names(), name@, i as int)
                && i == column_position(self.column_names(), name@),
    {
        let r = find_column(&self.columns, name);
        proof {
            if let Some(i) = r {
                lemma_column_position(self.column_names(), name@, i as int);
            }
        }
        r
    }

    /// A view of each row, in order: view `i` reads row `i` through this
    /// set's column index. It can be called any number of times, and every
    /// call gives the same views.
    pub fn iter(&self) -> (r: Vec<RowData<'_>>)
        ensures
            r@.len() == self.row_count(),
            forall|i: int| 0 <= i < r@.len() ==> #[trigger] r@[i].row_spec() == self.rows_spec()[i]
                && r@[i].column_names() == self.column_names(),
    {
        let mut out: Vec<RowData<'_>> = Vec::new();
        let mut i: usize = 0;
        while i < self.rows.len()
            invariant
                i <= self.rows@.len(),
                out@.len() == i,
                forall|j: int| 0 <= j < i ==> #[trigger] out@[j].row_spec() == self.rows@[j]
                    && out@[j].column_names() == names_view(self.columns@),
            decreases self.rows@.len() - i,
        {
            out.push(RowData { row: &self.rows[i], columns: &self.columns });
            i = i + 1;
        }
        out
    }
}

impl<'a> RowData<'a> {
    /// The row this view reads.
    pub closed spec fn row_spec(&self) -> SqliteRow {
        *self.row
    }

    /// The column index the row is read through.
    pub closed spec fn column_names(&self) -> Seq<Seq<char>> {
        names_view(self.columns@)
    }

    /// The named cell read as `T`: the cell at the name's last position in
    /// the column index, or `None` where it cannot be read as `T`.
    pub open spec fn cell<T: ColumnValue>(&self, name: Seq<char>) -> Option<T> {
        T::cell_at(self.row_spec(), column_position(self.column_names(), name) as usize)
    }

    /// The value of the named column, read as `T` from the cell at the
    /// name's last position. A name the column index lacks gives
    /// `ColumnNotFound`; a cell that cannot be read as `T` gives `Decode`.
    pub fn get<T: ColumnValue>(&self, name: &str) -> (r: Result<T, DbError>)
        ensures
            !self.column_names().contains(name@) ==> (r matches Err(DbError::ColumnNotFound(n))
                && n@ == name@),
            self.column_names().contains(name@) ==> (r is Ok <==> self.cell::<T>(name@) is Some),
            self.column_names().contains(name@) ==> (r matches Ok(v) ==> self.cell::<T>(name@)
                == Some(v)),
            self.column_names().contains(name@) ==> (r is Ok || r matches Err(DbError::Decode(_))),
    {
        match find_column(self.columns, name) {
            None => Err(DbError::ColumnNotFound(String::from_str(name))),
            Some(i) => {
                proof {
                    lemma_column_position(self.column_names(), name@, i as int);
                }
                match T::read_at(self.row, i) {
                    Ok(v) => Ok(v),
                    Err(e) => Err(DbError::Decode(e)),
                }
            },
        }
    }
}

/// A result set built from no rows has no rows to view and an empty column
/// index.
pub proof fn lemma_empty_result(rs: &ResultSet)
    requires
        rs.wf(),
        rs.row_count() == 0,
    ensures
        rs.column_names() == Seq::<Seq<char>>::empty(),
{
    assert(rs.column_names() =~= Seq::<Seq<char>>::empty());
}

} // verus!
