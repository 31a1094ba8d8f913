//! The `LIMIT` clause of a statement.

use crate::backend::Backend;
use crate::query_builder::{AstPass, QueryFragment, SqlPiece};
use vstd::prelude::*;

verus! {

/// The place of a `LIMIT` clause in a statement that has none.
#[derive(Debug, Clone, Copy, Default)]
pub struct NoLimitClause;

/// A `LIMIT` clause with the row count `Expr`.
#[derive(Debug, Clone, Copy)]
pub struct LimitClause<Expr>(pub Expr);

impl<DB: Backend> QueryFragment<DB> for NoLimitClause {
    open spec fn parts(&self) -> Seq<SqlPiece> {
        Seq::empty()
    }

    fn walk_ast(&self, pass: &mut AstPass<DB>) {
        assert(pass@ =~= old(pass)@ + Seq::<SqlPiece>::empty());
    }
}

impl<DB: Backend, Expr: QueryFragment<DB>> QueryFragment<DB> for LimitClause<Expr> {
    open spec fn parts(&self) -> Seq<SqlPiece> {
        seq![SqlPiece::Text(" LIMIT "@)] + self.0.parts()
    }

    fn walk_ast(&self, pass: &mut AstPass<DB>) {
        pass.push_sql(" LIMIT ");
        self.0.walk_ast(pass);
        assert(pass@ =~= old(pass)@ + (seq![SqlPiece::Text(" LIMIT "@)] + self.0.parts()));
    }
}

} // verus!
