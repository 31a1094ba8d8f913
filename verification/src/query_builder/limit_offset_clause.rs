//! The `LIMIT` and `OFFSET` clauses of a statement as one node, in its two
//! forms: typed by its parts, and boxed, with the types of its parts erased.
//!
//! Not every backend renders an `OFFSET` that no `LIMIT` precedes. The typed
//! form of such a pair is a fragment only of the backends that declare the
//! capability, so for the others the limit is mandatory. The boxed form does
//! not show in its type whether a limit is there: it exists only for the
//! backends that declare the capability.

use crate::backend::{Backend, SupportsLonelyOffset};
use crate::query_builder::limit_clause::{LimitClause, NoLimitClause};
use crate::query_builder::offset_clause::{NoOffsetClause, OffsetClause};
use crate::query_builder::{
    bind_count, bind_values, lemma_binds_of_concat, lemma_text_of_concat, sql_text,
    sql_text_after, AstPass, ErasedFragment, QueryFragment, SqlPiece,
};
use vstd::prelude::*;

verus! {

/// A query node that holds both the limit and the offset clause.
#[derive(Debug, Clone, Copy)]
pub struct LimitOffsetClause<Limit, Offset> {
    /// The limit clause
    pub limit_clause: Limit,
    /// The offset clause
    pub offset_clause: Offset,
}

/// The boxed form of [`LimitOffsetClause`].
pub struct BoxedLimitOffsetClause<DB> {
    /// The limit clause
    pub limit: Option<Box<ErasedFragment<DB>>>,
    /// The offset clause
    pub offset: Option<Box<ErasedFragment<DB>>>,
}

/// The pieces of a part of the boxed form that may be missing.
pub open spec fn boxed_parts<DB: Backend>(part: Option<Box<ErasedFragment<DB>>>) -> Seq<
    SqlPiece,
> {
    match part {
        Some(fragment) => fragment.parts(),
        None => Seq::empty(),
    }
}

fn walk_boxed<DB: Backend>(part: &Option<Box<ErasedFragment<DB>>>, pass: &mut AstPass<DB>)
    ensures
        final(pass)@ == old(pass)@ + boxed_parts(*part),
{
    match part {
        Some(fragment) => {
            fragment.walk_ast(pass);
        },
        None => {
            assert(pass@ =~= old(pass)@ + Seq::<SqlPiece>::empty());
        },
    }
}

fn walk_pair<DB: Backend, L: QueryFragment<DB>, O: QueryFragment<DB>>(
    limit: &L,
    offset: &O,
    pass: &mut AstPass<DB>,
)
    ensures
        final(pass)@ == old(pass)@ + (limit.parts() + offset.parts()),
{
    limit.walk_ast(pass);
    offset.walk_ast(pass);
    assert(pass@ =~= old(pass)@ + (limit.parts() + offset.parts()));
}

/// With a limit, on any backend: the limit, then whatever stands for the
/// offset.
impl<DB, L, O> QueryFragment<DB> for LimitOffsetClause<LimitClause<L>, O> where
    DB: Backend,
    L: QueryFragment<DB>,
    O: QueryFragment<DB>,
 {
    open spec fn parts(&self) -> Seq<SqlPiece> {
        QueryFragment::<DB>::parts(&self.limit_clause) + self.offset_clause.parts()
    }

    fn walk_ast(&self, pass: &mut AstPass<DB>) {
        walk_pair(&self.limit_clause, &self.offset_clause, pass);
    }
}

/// With neither, on any backend: nothing.
impl<DB: Backend> QueryFragment<DB> for LimitOffsetClause<NoLimitClause, NoOffsetClause> {
    open spec fn parts(&self) -> Seq<SqlPiece> {
        QueryFragment::<DB>::parts(&self.limit_clause) + QueryFragment::<DB>::parts(
            &self.offset_clause,
        )
    }

    fn walk_ast(&self, pass: &mut AstPass<DB>) {
        walk_pair(&self.limit_clause, &self.offset_clause, pass);
    }
}

/// With an offset alone: only on a backend that declares the capability.
impl<DB, O> QueryFragment<DB> for LimitOffsetClause<NoLimitClause, OffsetClause<O>> where
    DB: SupportsLonelyOffset,
    O: QueryFragment<DB>,
 {
    open spec fn parts(&self) -> Seq<SqlPiece> {
        QueryFragment::<DB>::parts(&self.limit_clause) + QueryFragment::<DB>::parts(
            &self.offset_clause,
        )
    }

    fn walk_ast(&self, pass: &mut AstPass<DB>) {
        walk_pair(&self.limit_clause, &self.offset_clause, pass);
    }
}

impl<DB: SupportsLonelyOffset> QueryFragment<DB> for BoxedLimitOffsetClause<DB> {
    open spec fn parts(&self) -> Seq<SqlPiece> {
        boxed_parts(self.limit) + boxed_parts(self.offset)
    }

    fn walk_ast(&self, pass: &mut AstPass<DB>) {
        walk_boxed(&self.limit, pass);
        walk_boxed(&self.offset, pass);
        assert(pass@ =~= old(pass)@ + (boxed_parts(self.limit) + boxed_parts(self.offset)));
    }
}

fn box_pair<DB, L, O>(limit: &L, offset: &O) -> (boxed: BoxedLimitOffsetClause<DB>) where
    DB: SupportsLonelyOffset,
    L: QueryFragment<DB>,
    O: QueryFragment<DB>,

    ensures
        boxed.limit is Some,
        boxed.offset is Some,
        boxed_parts(boxed.limit) == limit.parts(),
        boxed_parts(boxed.offset) == offset.parts(),
{
    BoxedLimitOffsetClause {
        limit: Some(Box::new(ErasedFragment::new(limit))),
        offset: Some(Box::new(ErasedFragment::new(offset))),
    }
}

/// The conversion of a typed clause to its boxed form. It is there only for a
/// backend `DB` that declares that it renders an offset without a limit; for
/// such a backend it never fails.
pub trait IntoBoxedClause<DB: SupportsLonelyOffset>: QueryFragment<DB> + Sized {
    /// The boxed form of the clause: both parts are there, and the whole
    /// renders as the typed clause does.
    fn into_boxed(self) -> (boxed: BoxedLimitOffsetClause<DB>)
        ensures
            DB::lonely_offset(),
            boxed.limit is Some,
            boxed.offset is Some,
            QueryFragment::<DB>::parts(&boxed) == QueryFragment::<DB>::parts(&self),
    ;
}

impl<DB, L, O> IntoBoxedClause<DB> for LimitOffsetClause<LimitClause<L>, O> where
    DB: SupportsLonelyOffset,
    L: QueryFragment<DB>,
    O: QueryFragment<DB>,
 {
    fn into_boxed(self) -> (boxed: BoxedLimitOffsetClause<DB>)
        ensures
            boxed_parts::<DB>(boxed.limit) == QueryFragment::<DB>::parts(&self.limit_clause),
            boxed_parts::<DB>(boxed.offset) == self.offset_clause.parts(),
    {
        proof {
            DB::lonely_offset_declared();
        }
        box_pair(&self.limit_clause, &self.offset_clause)
    }
}

impl<DB: SupportsLonelyOffset> IntoBoxedClause<DB> for LimitOffsetClause<
    NoLimitClause,
    NoOffsetClause,
> {
    fn into_boxed(self) -> (boxed: BoxedLimitOffsetClause<DB>)
        ensures
            boxed_parts::<DB>(boxed.limit) == QueryFragment::<DB>::parts(&self.limit_clause),
            boxed_parts::<DB>(boxed.offset) == QueryFragment::<DB>::parts(&self.offset_clause),
    {
        proof {
            DB::lonely_offset_declared();
        }
        box_pair(&self.limit_clause, &self.offset_clause)
    }
}

impl<DB, O> IntoBoxedClause<DB> for LimitOffsetClause<NoLimitClause, OffsetClause<O>> where
    DB: SupportsLonelyOffset,
    O: QueryFragment<DB>,
 {
    fn into_boxed(self) -> (boxed: BoxedLimitOffsetClause<DB>)
        ensures
            boxed_parts::<DB>(boxed.limit) == QueryFragment::<DB>::parts(&self.limit_clause),
            boxed_parts::<DB>(boxed.offset) == QueryFragment::<DB>::parts(&self.offset_clause),
    {
        proof {
            DB::lonely_offset_declared();
        }
        box_pair(&self.limit_clause, &self.offset_clause)
    }
}

/// Where a clause has both a limit and an offset, the text of the limit
/// stands before the text of the offset, and the bound values of the limit
/// before those of the offset. The text of the limit is not empty, so the
/// offset starts strictly after the place where the limit starts, and nothing
/// stands between them.
pub proof fn lemma_limit_renders_before_offset<DB, L, O>(
    clause: LimitOffsetClause<LimitClause<L>, OffsetClause<O>>,
) where DB: Backend, L: QueryFragment<DB>, O: QueryFragment<DB>
    ensures
        sql_text::<DB>(QueryFragment::<DB>::parts(&clause)) == sql_text::<DB>(
            QueryFragment::<DB>::parts(&clause.limit_clause),
        ) + sql_text_after::<DB>(
            QueryFragment::<DB>::parts(&clause.offset_clause),
            bind_count(QueryFragment::<DB>::parts(&clause.limit_clause)),
        ),
        sql_text::<DB>(QueryFragment::<DB>::parts(&clause.limit_clause)).len() > 0,
        bind_values(QueryFragment::<DB>::parts(&clause)) == bind_values(
            QueryFragment::<DB>::parts(&clause.limit_clause),
        ) + bind_values(QueryFragment::<DB>::parts(&clause.offset_clause)),
{
    let limit = QueryFragment::<DB>::parts(&clause.limit_clause);
    let offset = QueryFragment::<DB>::parts(&clause.offset_clause);
    lemma_text_of_concat::<DB>(limit, offset, 0);
    lemma_binds_of_concat(limit, offset);
    let keyword = seq![SqlPiece::Text(" LIMIT "@)];
    lemma_text_of_concat::<DB>(keyword, clause.limit_clause.0.parts(), 0);
    assert(sql_text_after::<DB>(keyword, 0) == " LIMIT "@) by {
        reveal_with_fuel(sql_text_after, 2);
        assert(keyword.drop_last() == Seq::<SqlPiece>::empty());
        assert(Seq::<char>::empty() + " LIMIT "@ == " LIMIT "@);
    }
    reveal_strlit(" LIMIT ");
}

/// A boxed clause that holds the pieces of a typed clause renders to the same
/// text and the same bound values as the typed clause, on the same backend.
pub proof fn lemma_boxed_renders_as_typed<DB, C>(clause: C, boxed: BoxedLimitOffsetClause<DB>) where
    DB: SupportsLonelyOffset,
    C: QueryFragment<DB>,

    requires
        boxed.parts() == clause.parts(),
    ensures
        sql_text::<DB>(boxed.parts()) == sql_text::<DB>(clause.parts()),
        bind_values(boxed.parts()) == bind_values(clause.parts()),
{
}

} // verus!
