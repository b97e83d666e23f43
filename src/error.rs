use vstd::prelude::*;

verus! {

#[verifier::external_type_specification]
#[verifier::external_body]
pub struct ExSqlxError(sqlx::Error);

/// The failures of the data-access layer.
#[derive(Debug)]
pub enum DbError {
    /// The database file or engine could not be reached when opening.
    Connection(sqlx::Error),
    /// The engine reported a failure while binding or executing a statement.
    Execution(sqlx::Error),
    /// An update was run through the query path, or a query through the update path.
    WrongResultShape,
    /// The named column is not in the result set's column index.
    ColumnNotFound(String),
    /// The stored value of a cell cannot be read as the requested type.
    Decode(sqlx::Error),
}

} // verus!
