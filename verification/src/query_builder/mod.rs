//! Building a statement: the fragments of the syntax tree and the pass that
//! walks them.
//!
//! A fragment contributes pieces to a statement: literal SQL text, and bound
//! values that travel beside the text and leave only a placeholder in it. The
//! pass gathers the pieces of a tree depth first, in the order the nodes give
//! them, and then lays them out as the text and the value list that the
//! backend takes.

pub mod limit_clause;
pub mod limit_offset_clause;
pub mod offset_clause;

use crate::backend::Backend;
use crate::serialize::{written, IsNull, Output, ToSql};
use core::marker::PhantomData;
use vstd::prelude::*;
use vstd::string::StringExecFns;

verus! {

/// One piece of a statement.
#[derive(Debug)]
pub enum SqlPart {
    /// Literal SQL text.
    Text(&'static str),
    /// A bound value in its wire form; `None` is a null.
    Bind(Option<Vec<u8>>),
}

/// A piece of a statement as a mathematical value.
pub enum SqlPiece {
    /// Literal SQL text.
    Text(Seq<char>),
    /// A bound value in its wire form; `None` is a null.
    Bind(Option<Seq<u8>>),
}

/// The wire form of a bound value, seen as a value.
pub open spec fn bind_view(bind: Option<Vec<u8>>) -> Option<Seq<u8>> {
    match bind {
        Some(bytes) => Some(bytes@),
        None => None,
    }
}

/// A list of bound values, seen as a value.
pub open spec fn binds_view(binds: Seq<Option<Vec<u8>>>) -> Seq<Option<Seq<u8>>> {
    binds.map_values(|bind: Option<Vec<u8>>| bind_view(bind))
}

impl View for SqlPart {
    type V = SqlPiece;

    open spec fn view(&self) -> SqlPiece {
        match self {
            SqlPart::Text(text) => SqlPiece::Text(text@),
            SqlPart::Bind(bind) => SqlPiece::Bind(bind_view(*bind)),
        }
    }
}

/// A list of pieces, seen as a value.
pub open spec fn parts_view(parts: Seq<SqlPart>) -> Seq<SqlPiece> {
    parts.map_values(|part: SqlPart| part@)
}

/// The number of bound values among `pieces`.
pub open spec fn bind_count(pieces: Seq<SqlPiece>) -> nat
    decreases pieces.len(),
{
    if pieces.len() == 0 {
        0
    } else if pieces.last() is Bind {
        bind_count(pieces.drop_last()) + 1
    } else {
        bind_count(pieces.drop_last())
    }
}

/// The bound values among `pieces`, in their order.
pub open spec fn bind_values(pieces: Seq<SqlPiece>) -> Seq<Option<Seq<u8>>>
    decreases pieces.len(),
{
    if pieces.len() == 0 {
        Seq::empty()
    } else {
        match pieces.last() {
            SqlPiece::Bind(bind) => bind_values(pieces.drop_last()).push(bind),
            SqlPiece::Text(_) => bind_values(pieces.drop_last()),
        }
    }
}

/// The text that the backend `DB` writes for `pieces` in a statement that
/// already holds `bound` bound values: each text as it is, each bound value as
/// the placeholder of its number in the statement.
pub open spec fn sql_text_after<DB: Backend>(pieces: Seq<SqlPiece>, bound: nat) -> Seq<char>
    decreases pieces.len(),
{
    if pieces.len() == 0 {
        Seq::empty()
    } else {
        let before = pieces.drop_last();
        match pieces.last() {
            SqlPiece::Text(text) => sql_text_after::<DB>(before, bound) + text,
            SqlPiece::Bind(_) => sql_text_after::<DB>(before, bound) + DB::placeholder(
                bound + bind_count(before) + 1,
            ),
        }
    }
}

/// The text that the backend `DB` writes for a statement made of `pieces`.
pub open spec fn sql_text<DB: Backend>(pieces: Seq<SqlPiece>) -> Seq<char> {
    sql_text_after::<DB>(pieces, 0)
}

/// The bound values of two runs of pieces are those of the first, then those
/// of the second.
pub proof fn lemma_binds_of_concat(first: Seq<SqlPiece>, second: Seq<SqlPiece>)
    ensures
        bind_count(first + second) == bind_count(first) + bind_count(second),
        bind_values(first + second) == bind_values(first) + bind_values(second),
    decreases second.len(),
{
    if second.len() == 0 {
        assert(first + second == first);
        assert(bind_values(first) + bind_values(second) == bind_values(first));
    } else {
        lemma_binds_of_concat(first, second.drop_last());
        assert((first + second).drop_last() == first + second.drop_last());
        assert((first + second).last() == second.last());
        match second.last() {
            SqlPiece::Bind(bind) => {
                assert(bind_values(first) + bind_values(second.drop_last()).push(bind) == (
                bind_values(first) + bind_values(second.drop_last())).push(bind));
            },
            SqlPiece::Text(_) => {},
        }
    }
}

/// The text of two runs of pieces is the text of the first, then the text of
/// the second, whose placeholders count on from the bound values of the first.
pub proof fn lemma_text_of_concat<DB: Backend>(
    first: Seq<SqlPiece>,
    second: Seq<SqlPiece>,
    bound: nat,
)
    ensures
        sql_text_after::<DB>(first + second, bound) == sql_text_after::<DB>(first, bound)
            + sql_text_after::<DB>(second, bound + bind_count(first)),
    decreases second.len(),
{
    if second.len() == 0 {
        assert(first + second == first);
        assert(sql_text_after::<DB>(first, bound) + Seq::<char>::empty() == sql_text_after::<DB>(
            first,
            bound,
        ));
    } else {
        let before = second.drop_last();
        lemma_text_of_concat::<DB>(first, before, bound);
        lemma_binds_of_concat(first, before);
        assert((first + second).drop_last() == first + before);
        assert((first + second).last() == second.last());
        let head = sql_text_after::<DB>(first, bound);
        let tail = sql_text_after::<DB>(before, bound + bind_count(first));
        match second.last() {
            SqlPiece::Text(text) => {
                assert((head + tail) + text == head + (tail + text));
            },
            SqlPiece::Bind(_) => {
                let mark = DB::placeholder(bound + bind_count(first) + bind_count(before) + 1);
                assert((head + tail) + mark == head + (tail + mark));
            },
        }
    }
}

/// A rendered statement: the SQL text and, beside it, the bound values in the
/// order of their placeholders.
#[derive(Debug)]
pub struct Query {
    /// The text, with a placeholder where a value is bound.
    pub sql: String,
    /// The bound values in their wire form; `None` is a null.
    pub binds: Vec<Option<Vec<u8>>>,
}

/// The pass over a syntax tree of the backend `DB`. It holds the pieces
/// gathered so far and only ever grows.
pub struct AstPass<DB> {
    parts: Vec<SqlPart>,
    backend: PhantomData<DB>,
}

impl<DB> View for AstPass<DB> {
    type V = Seq<SqlPiece>;

    closed spec fn view(&self) -> Seq<SqlPiece> {
        parts_view(self.parts@)
    }
}

fn clone_bind(bind: &Option<Vec<u8>>) -> (copy: Option<Vec<u8>>)
    ensures
        bind_view(copy) == bind_view(*bind),
{
    match bind {
        Some(bytes) => {
            let copy = bytes.clone();
            assert(copy@ =~= bytes@);
            Some(copy)
        },
        None => None,
    }
}

fn clone_part(part: &SqlPart) -> (copy: SqlPart)
    ensures
        copy@ == part@,
{
    match part {
        SqlPart::Text(text) => SqlPart::Text(*text),
        SqlPart::Bind(bind) => SqlPart::Bind(clone_bind(bind)),
    }
}

impl<DB: Backend> AstPass<DB> {
    /// A pass that has gathered nothing yet.
    pub fn new() -> (pass: Self)
        ensures
            pass@ == Seq::<SqlPiece>::empty(),
    {
        let pass = AstPass { parts: Vec::new(), backend: PhantomData };
        assert(pass@ =~= Seq::<SqlPiece>::empty());
        pass
    }

    fn push_part(&mut self, part: SqlPart)
        ensures
            final(self)@ == old(self)@.push(part@),
    {
        self.parts.push(part);
        assert(self@ =~= old(self)@.push(part@));
    }

    /// Adds literal SQL text.
    pub fn push_sql(&mut self, text: &'static str)
        ensures
            final(self)@ == old(self)@.push(SqlPiece::Text(text@)),
    {
        self.push_part(SqlPart::Text(text));
    }

    /// Adds a bound value: `value` is encoded as the SQL type `ST` and kept
    /// beside the text, which gets a placeholder for it.
    pub fn push_bind_param<ST, T: ToSql<ST, DB>>(&mut self, value: &T)
        ensures
            final(self)@ == old(self)@.push(SqlPiece::Bind(value.wire())),
    {
        let mut out = Output::<DB>::new();
        let bind = match value.to_sql(&mut out) {
            IsNull::No => Some(out.into_bytes()),
            IsNull::Yes => None,
        };
        assert(bind_view(bind) == value.wire()) by {
            assert(Seq::<u8>::empty() + written(value.wire()) =~= written(value.wire()));
        }
        self.push_part(SqlPart::Bind(bind));
    }

    /// Lays the gathered pieces out as a statement.
    pub fn finish(self) -> (query: Query)
        ensures
            query.sql@ == sql_text::<DB>(self@),
            binds_view(query.binds@) == bind_values(self@),
    {
        let mut sql = String::new();
        let mut binds: Vec<Option<Vec<u8>>> = Vec::new();
        let mut i: usize = 0;
        assert(binds_view(binds@) =~= bind_values(self@.take(0)));
        while i < self.parts.len()
            invariant
                i <= self.parts@.len(),
                self@.len() == self.parts@.len(),
                sql@ == sql_text::<DB>(self@.take(i as int)),
                binds_view(binds@) == bind_values(self@.take(i as int)),
                binds@.len() == bind_count(self@.take(i as int)),
                binds@.len() <= i,
            decreases self.parts@.len() - i,
        {
            let ghost done = self@.take(i as int);
            let ghost next = self@.take(i + 1);
            assert(next.drop_last() =~= done);
            assert(next.last() == self.parts@[i as int]@);
            match &self.parts[i] {
                SqlPart::Text(text) => {
                    sql.append(text);
                },
                SqlPart::Bind(bind) => {
                    DB::push_placeholder(&mut sql, binds.len() + 1);
                    let copy = clone_bind(bind);
                    binds.push(copy);
                    assert(binds_view(binds@) =~= bind_values(done).push(bind_view(*bind)));
                },
            }
            i += 1;
        }
        assert(self@.take(i as int) =~= self@);
        Query { sql, binds }
    }
}

/// A node of the syntax tree, as the backend `DB` renders it.
pub trait QueryFragment<DB: Backend> {
    /// The pieces that the node and the nodes below it contribute, in order.
    spec fn parts(&self) -> Seq<SqlPiece>;

    /// Walks the node: gives its pieces to the pass, its own and those of its
    /// children in their fixed order.
    fn walk_ast(&self, pass: &mut AstPass<DB>)
        ensures
            final(pass)@ == old(pass)@ + self.parts(),
    ;
}

/// Renders the tree below `fragment` as a statement of the backend `DB`.
pub fn render<DB: Backend, F: QueryFragment<DB>>(fragment: &F) -> (query: Query)
    ensures
        query.sql@ == sql_text::<DB>(fragment.parts()),
        binds_view(query.binds@) == bind_values(fragment.parts()),
{
    let mut pass = AstPass::<DB>::new();
    fragment.walk_ast(&mut pass);
    assert(pass@ =~= fragment.parts());
    pass.finish()
}

/// A fragment that has forgotten the type of the node it was made from and
/// kept what the node renders. It renders as the node did.
pub struct ErasedFragment<DB> {
    parts: Vec<SqlPart>,
    backend: PhantomData<DB>,
}

impl<DB: Backend> ErasedFragment<DB> {
    /// The erased form of `fragment`.
    pub fn new<F: QueryFragment<DB>>(fragment: &F) -> (erased: Self)
        ensures
            erased.parts() == fragment.parts(),
    {
        let mut pass = AstPass::<DB>::new();
        fragment.walk_ast(&mut pass);
        assert(pass@ =~= fragment.parts());
        ErasedFragment { parts: pass.parts, backend: PhantomData }
    }
}

impl<DB: Backend> QueryFragment<DB> for ErasedFragment<DB> {
    closed spec fn parts(&self) -> Seq<SqlPiece> {
        parts_view(self.parts@)
    }

    fn walk_ast(&self, pass: &mut AstPass<DB>) {
        let mut i: usize = 0;
        assert(pass@ =~= old(pass)@ + self.parts().take(0));
        while i < self.parts.len()
            invariant
                i <= self.parts@.len(),
                pass@ == old(pass)@ + self.parts().take(i as int),
            decreases self.parts@.len() - i,
        {
            let copy = clone_part(&self.parts[i]);
            pass.push_part(copy);
            i += 1;
            assert(pass@ =~= old(pass)@ + self.parts().take(i as int));
        }
        assert(self.parts().take(i as int) =~= self.parts());
    }
}

/// Something that can be turned into a query.
pub trait AsQuery {
    /// The SQL type of what the query selects.
    type SqlType;

    type Query;

    fn as_query(self) -> Self::Query;
}

/// What an update or a delete acts on: a table, and the filter that narrows
/// it to some of its rows.
pub trait UpdateTarget {
    type Table;

    type WhereClause;

    /// The filter; `None` stands for the whole table.
    fn where_clause(&self) -> Option<&Self::WhereClause>;
}

} // verus!
