//! The `OFFSET` clause of a statement.

use crate::backend::Backend;
use crate::query_builder::{AstPass, QueryFragment, SqlPiece};
use vstd::prelude::*;

verus! {

/// The place of an `OFFSET` clause in a statement that has none.
#[derive(Debug, Clone, Copy, Default)]
pub struct NoOffsetClause;

/// An `OFFSET` clause that skips `Expr` rows.
#[derive(Debug, Clone, Copy)]
pub struct OffsetClause<Expr>(pub Expr);

impl<DB: Backend> QueryFragment<DB> for NoOffsetClause {
    open spec fn parts(&self) -> Seq<SqlPiece> {
        Seq::empty()
    }

    fn walk_ast(&self, pass: &mut AstPass<DB>) {
        assert(pass@ =~= old(pass)@ + Seq::<SqlPiece>::empty());
    }
}

impl<DB: Backend, Expr: QueryFragment<DB>> QueryFragment<DB> for OffsetClause<Expr> {
    open spec fn parts(&self) -> Seq<SqlPiece> {
        seq![SqlPiece::Text(" OFFSET "@)] + self.0.parts()
    }

    fn walk_ast(&self, pass: &mut AstPass<DB>) {
        pass.push_sql(" OFFSET ");
        self.0.walk_ast(pass);
        assert(pass@ =~= old(pass)@ + (seq![SqlPiece::Text(" OFFSET "@)] + self.0.parts()));
    }
}

} // verus!
