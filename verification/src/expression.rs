//! Expressions: the fragments that stand for a value.

use crate::query_builder::{AstPass, QueryFragment, SqlPiece};
use crate::serialize::ToSql;
use crate::sql_types::HasSqlType;
use core::marker::PhantomData;
use vstd::prelude::*;

verus! {

/// A fragment that stands for a value of an SQL type.
pub trait Expression {
    type SqlType;
}

/// An expression that can be selected from the query source `QS`.
pub trait SelectableExpression<QS>: Expression {
}

/// An expression that holds no aggregate function.
pub trait NonAggregate: Expression {
}

/// A pair of expressions is an expression: its type is the pair of theirs.
impl<A: Expression, B: Expression> Expression for (A, B) {
    type SqlType = (A::SqlType, B::SqlType);
}

impl<A, B, QS> SelectableExpression<QS> for (A, B) where
    A: SelectableExpression<QS>,
    B: SelectableExpression<QS>,
 {
}

impl<A: NonAggregate, B: NonAggregate> NonAggregate for (A, B) {
}

/// A triple of expressions is an expression: its type is the triple of
/// theirs.
impl<A: Expression, B: Expression, C: Expression> Expression for (A, B, C) {
    type SqlType = (A::SqlType, B::SqlType, C::SqlType);
}

impl<A, B, C, QS> SelectableExpression<QS> for (A, B, C) where
    A: SelectableExpression<QS>,
    B: SelectableExpression<QS>,
    C: SelectableExpression<QS>,
 {
}

impl<A: NonAggregate, B: NonAggregate, C: NonAggregate> NonAggregate for (A, B, C) {
}

/// A native value bound to a statement as the SQL type `ST`. It is never
/// written into the text: the text gets a placeholder and the value travels
/// beside it.
pub struct Bound<ST, T> {
    /// The value.
    pub item: T,
    /// The SQL type that the value is bound as.
    pub sql_type: PhantomData<ST>,
}

impl<ST, T> Bound<ST, T> {
    /// Binds `item`.
    pub fn new(item: T) -> (bound: Self)
        ensures
            bound.item == item,
    {
        Bound { item, sql_type: PhantomData }
    }
}

impl<ST, T, DB> QueryFragment<DB> for Bound<ST, T> where DB: HasSqlType<ST>, T: ToSql<ST, DB> {
    open spec fn parts(&self) -> Seq<SqlPiece> {
        seq![SqlPiece::Bind(self.item.wire())]
    }

    fn walk_ast(&self, pass: &mut AstPass<DB>) {
        pass.push_bind_param::<ST, T>(&self.item);
        assert(pass@ =~= old(pass)@ + seq![SqlPiece::Bind(self.item.wire())]);
    }
}

} // verus!
