//! A small typed data-access layer over an embedded SQLite database.
//!
//! The library holds the parts that decide: the parameter union and its
//! conversions, the statement builder, the query/update classification of SQL
//! text, the result-shape checks, the column index of a result set with typed
//! by-name extraction, and the table mapping of the `Crontask` record.
//! Connecting and running statements against the engine is left to the caller.
pub mod error;
pub mod param;
pub mod statement;
pub mod result_set;
pub mod crontask;

pub use error::DbError;
pub use result_set::{ColumnValue, ResultSet, RowData};
pub use crontask::Crontask;
pub use param::{BindValue, Param};
pub use statement::{
    is_select_query, starts_with_select, ExecKind, Statement, StatementResult,
};


