//! Scalar type tags: zero-size markers for the logical SQL type of a column or
//! of a bound value. A tag chooses the codec; it carries no data.

use crate::backend::{Backend, Pg};
use vstd::prelude::*;

verus! {

/// The 16-bit integer type, `SMALLINT`.
#[derive(Debug, Clone, Copy, Default)]
pub struct SmallInt;

/// The 32-bit integer type, `INTEGER`.
#[derive(Debug, Clone, Copy, Default)]
pub struct Integer;

/// The 64-bit integer type, `BIGINT`.
#[derive(Debug, Clone, Copy, Default)]
pub struct BigInt;

/// The object identifier type, `OID`: an unsigned 32-bit integer.
#[derive(Debug, Clone, Copy, Default)]
pub struct Oid;

/// The nullable form of the type `ST`.
#[derive(Debug, Default)]
pub struct Nullable<ST>(pub ST);

/// The backend has a wire form for the SQL type `ST`.
pub trait HasSqlType<ST>: Backend {
}

impl HasSqlType<SmallInt> for Pg {
}

impl HasSqlType<Integer> for Pg {
}

impl HasSqlType<BigInt> for Pg {
}

impl HasSqlType<Oid> for Pg {
}

impl<ST, DB: HasSqlType<ST>> HasSqlType<Nullable<ST>> for DB {
}

impl<SA, DB: HasSqlType<SA>> HasSqlType<(SA,)> for DB {
}

impl<SA, SB, DB: HasSqlType<SA> + HasSqlType<SB>> HasSqlType<(SA, SB)> for DB {
}

impl<SA, SB, SC, DB: HasSqlType<SA> + HasSqlType<SB> + HasSqlType<SC>> HasSqlType<(SA, SB, SC)> for DB {
}

} // verus!
