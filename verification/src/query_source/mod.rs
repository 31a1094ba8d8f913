//! What a schema declares: tables, their columns, and the records that rows
//! are mapped to. The types that implement these traits describe one schema;
//! they are written once, when the schema is declared, and never change.

use crate::backend::Backend;
use crate::deserialize::{row_payloads, DeserializeError, FromSqlRow, RawValue};
use crate::expression::{Expression, NonAggregate, SelectableExpression};
use crate::query_builder::{AsQuery, UpdateTarget};
use crate::sql_types::HasSqlType;
use vstd::prelude::*;

verus! {

/// A record that can be built from a row of a query whose selection has the
/// SQL type `ST` on the backend `DB`.
pub trait Queryable<ST, DB>: Sized where DB: Backend + HasSqlType<ST> {
    /// The decoded row: the native values of the selected columns, in their
    /// order.
    type Row: FromSqlRow<ST, DB>;

    /// Builds the record from a decoded row.
    fn build(row: Self::Row) -> Self;
}

/// Something that rows can be selected from.
pub trait QuerySource {
    type FromClause;

    fn from_clause(&self) -> Self::FromClause;
}

/// A column of a table.
pub trait Column: Expression + Default {
    /// The table that the column belongs to. That it is a [`Table`] is not
    /// stated as a bound: traits that name each other in their bounds form a
    /// cycle, which Verus refuses. A table's own columns are bound to it by
    /// [`Table::PrimaryKey`].
    type Table;

    /// The name of the column.
    fn name() -> &'static str;
}

/// A table of the schema.
pub trait Table: QuerySource + AsQuery + Sized + Default {
    /// The column that holds the primary key.
    type PrimaryKey: Column<Table = Self> + Expression + NonAggregate;

    /// All columns in their declared order: what is selected where a query
    /// names no selection.
    type AllColumns: SelectableExpression<Self> + NonAggregate;

    /// The name of the table.
    fn name() -> &'static str;

    fn primary_key(&self) -> Self::PrimaryKey;

    fn all_columns() -> Self::AllColumns;
}

/// Every table is a target of updates and deletes as a whole: no filter
/// narrows it until a caller adds one.
impl<T: Table> UpdateTarget for T {
    type Table = Self;

    type WhereClause = ();

    fn where_clause(&self) -> (filter: Option<&Self::WhereClause>)
        ensures
            filter is None,
    {
        None
    }
}

/// Maps one row to a record: decodes the columns into the record's row
/// tuple and builds the record from it. The row must hold exactly the columns
/// of the tuple, in its order. Either every column decodes and the record is
/// what [`Queryable::build`] makes of the decoded tuple, or the error of the
/// first column that fails comes back and nothing is built.
pub fn build_record<ST, DB, U>(row: &[Option<RawValue<'_, DB>>]) -> (result: Result<
    U,
    DeserializeError,
>) where DB: Backend + HasSqlType<ST>, U: Queryable<ST, DB>
    requires
        row@.len() == <U::Row as FromSqlRow<ST, DB>>::width(),
    ensures
        match <U::Row as FromSqlRow<ST, DB>>::row_decoded(row_payloads(row@)) {
            Ok(decoded) => result is Ok && call_ensures(U::build, (decoded,), result->Ok_0),
            Err(reason) => result == Err::<U, DeserializeError>(reason),
        },
{
    match <U::Row as FromSqlRow<ST, DB>>::build_from_row(row) {
        Ok(decoded) => Ok(U::build(decoded)),
        Err(reason) => Err(reason),
    }
}

} // verus!
