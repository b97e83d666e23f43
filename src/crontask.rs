use vstd::prelude::*;
use crate::error::DbError;
use crate::param::Param;
use crate::result_set::RowData;
use crate::statement::Statement;

verus! {

/// A scheduled task record, stored one per row of the `crontask` table. The
/// primary key is the pair (`id`, `dept_id`).
#[derive(Debug, Clone, Default, PartialEq)]
pub struct Crontask {
    pub id: i32,
    pub dept_id: i32,
    pub name: String,
    pub hire_date: String,
    pub active: bool,
}

/// The statement that creates the table when it is missing.
pub open spec fn create_table_text() -> Seq<char> {
    "CREATE TABLE IF NOT EXISTS crontask (id INTEGER, dept_id INTEGER, name VARCHAR(55), hire_date VARCHAR(19), active BOOLEAN, PRIMARY KEY (id, dept_id))"@
}

/// The statement that inserts one record, its columns in declaration order.
pub open spec fn insert_text() -> Seq<char> {
    "INSERT INTO crontask (id, dept_id, name, hire_date, active) VALUES (?, ?, ?, ?, ?)"@
}

/// The statement that selects the record with a given primary key.
pub open spec fn select_by_key_text() -> Seq<char> {
    "SELECT id, dept_id, name, hire_date, active FROM crontask WHERE id = ? AND dept_id = ?"@
}

/// The values the insert statement binds for a record, in declaration order.
pub open spec fn insert_params(c: Crontask) -> Seq<Param> {
    seq![
        Param::I32(c.id),
        Param::I32(c.dept_id),
        Param::String(c.name),
        Param::String(c.hire_date),
        Param::Bool(c.active),
    ]
}

/// The values the lookup statement binds for a record: its primary key.
pub open spec fn key_params(c: Crontask) -> Seq<Param> {
    seq![Param::I32(c.id), Param::I32(c.dept_id)]
}

/// Whether a row view holds a record: every column is in its index and each
/// named cell reads as the record's field.
pub open spec fn row_holds(row: RowData, c: Crontask) -> bool {
    &&& has_all_fields(row.column_names())
    &&& row.cell::<i32>("id"@) == Some(c.id)
    &&& row.cell::<i32>("dept_id"@) == Some(c.dept_id)
    &&& row.cell::<String>("name"@) == Some(c.name)
    &&& row.cell::<String>("hire_date"@) == Some(c.hire_date)
    &&& row.cell::<bool>("active"@) == Some(c.active)
}

/// Whether every column of the table is in a row view's index and reads as
/// the field's type.
pub open spec fn row_readable(row: RowData) -> bool {
    &&& has_all_fields(row.column_names())
    &&& row.cell::<i32>("id"@) is Some
    &&& row.cell::<i32>("dept_id"@) is Some
    &&& row.cell::<String>("name"@) is Some
    &&& row.cell::<String>("hire_date"@) is Some
    &&& row.cell::<bool>("active"@) is Some
}

/// The column names of the table, in declaration order.
pub open spec fn field_names() -> Seq<Seq<char>> {
    seq!["id"@, "dept_id"@, "name"@, "hire_date"@, "active"@]
}

/// Whether a column index holds every column of the table.
pub open spec fn has_all_fields(names: Seq<Seq<char>>) -> bool {
    forall|i: int| 0 <= i < field_names().len() ==> names.contains(#[trigger] field_names()[i])
}

impl Crontask {
    /// The SQL text that creates the table when it is missing.
    pub fn create_table_sql() -> (r: String)
        ensures
            r@ == create_table_text(),
    {
        String::from_str(
            "CREATE TABLE IF NOT EXISTS crontask (id INTEGER, dept_id INTEGER, name VARCHAR(55), hire_date VARCHAR(19), active BOOLEAN, PRIMARY KEY (id, dept_id))",
        )
    }

    /// The statement that creates the table, with nothing bound.
    pub fn init_statement() -> (r: Statement)
        ensures
            r.sql_spec() == create_table_text(),
            r.params_spec() == Seq::<Param>::empty(),
    {
        Statement::new(
            "CREATE TABLE IF NOT EXISTS crontask (id INTEGER, dept_id INTEGER, name VARCHAR(55), hire_date VARCHAR(19), active BOOLEAN, PRIMARY KEY (id, dept_id))",
        )
    }

    /// The statement that inserts this record, its fields bound in
    /// declaration order.
    pub fn insert_statement(&self) -> (r: Statement)
        ensures
            r.sql_spec() == insert_text(),
            r.params_spec() == insert_params(*self),
    {
        let s = Statement::new(
            "INSERT INTO crontask (id, dept_id, name, hire_date, active) VALUES (?, ?, ?, ?, ?)",
        );
        let r = s.set_param(self.id).set_param(self.dept_id).set_param(self.name.clone()).set_param(
            self.hire_date.clone(),
        ).set_param(self.active);
        assert(r.params_spec() =~= insert_params(*self));
        r
    }

    /// The statement that selects the stored record with this record's
    /// primary key.
    pub fn query_statement(&self) -> (r: Statement)
        ensures
            r.sql_spec() == select_by_key_text(),
            r.params_spec() == key_params(*self),
    {
        let s = Statement::new(
            "SELECT id, dept_id, name, hire_date, active FROM crontask WHERE id = ? AND dept_id = ?",
        );
        let r = s.set_param(self.id).set_param(self.dept_id);
        assert(r.params_spec() =~= key_params(*self));
        r
    }

    /// The record stored in a row, read by column name in declaration order.
    /// The first column that fails decides the error: `ColumnNotFound` for a
    /// column the row's index lacks, `Decode` for a cell of the wrong type.
    pub fn from_row(row: &RowData) -> (r: Result<Crontask, DbError>)
        ensures
            r matches Err(DbError::ColumnNotFound(n)) ==> field_names().contains(n@)
                && !row.column_names().contains(n@),
            r is Err ==> (r matches Err(DbError::ColumnNotFound(_)) || r matches Err(
                DbError::Decode(_),
            )),
            !has_all_fields(row.column_names()) ==> r is Err,
            has_all_fields(row.column_names()) ==> !(r matches Err(DbError::ColumnNotFound(_))),
            r is Ok <==> row_readable(*row),
            r matches Ok(c) ==> row_holds(*row, c),
            !row.column_names().contains("id"@) ==> (r matches Err(DbError::ColumnNotFound(n))
                && n@ == "id"@),
    {
        proof {
            assert(field_names()[0] == "id"@);
            assert(field_names()[1] == "dept_id"@);
            assert(field_names()[2] == "name"@);
            assert(field_names()[3] == "hire_date"@);
            assert(field_names()[4] == "active"@);
        }
        let id = match row.get::<i32>("id") {
            Ok(v) => v,
            Err(e) => {
                return Err(e);
            },
        };
        let dept_id = match row.get::<i32>("dept_id") {
            Ok(v) => v,
            Err(e) => {
                return Err(e);
            },
        };
        let name = match row.get::<String>("name") {
            Ok(v) => v,
            Err(e) => {
                return Err(e);
            },
        };
        let hire_date = match row.get::<String>("hire_date") {
            Ok(v) => v,
            Err(e) => {
                return Err(e);
            },
        };
        let active = match row.get::<bool>("active") {
            Ok(v) => v,
            Err(e) => {
                return Err(e);
            },
        };
        Ok(Crontask { id, dept_id, name, hire_date, active })
    }
}

/// The lookup statement of a record binds exactly the primary-key values that
/// its insert statement binds first, in the same order, so a lookup selects
/// the row an insert of the same record wrote.
pub proof fn lemma_lookup_binds_inserted_key(c: Crontask)
    ensures
        key_params(c) == insert_params(c).subrange(0, 2),
{
    assert(key_params(c) =~= insert_params(c).subrange(0, 2));
}

} // verus!
