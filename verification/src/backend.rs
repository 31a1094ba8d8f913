//! The backends and what each one declares about itself.
//!
//! A backend is a zero-size marker type. The set is closed: PostgreSQL,
//! MySQL and SQLite. What a backend can do is declared once, here, and
//! clause types ask for a capability through a marker trait.

use vstd::prelude::*;
use vstd::string::StringExecFns;

verus! {

/// The character for the decimal digit `d`.
pub open spec fn digit_char(d: nat) -> char
    recommends
        d < 10,
{
    "0123456789"@[d as int]
}

/// The decimal numeral of `n`, without leading zeros.
pub open spec fn decimal(n: nat) -> Seq<char>
    decreases n,
{
    if n < 10 {
        seq![digit_char(n)]
    } else {
        decimal(n / 10).push(digit_char(n % 10))
    }
}

/// A database backend.
pub trait Backend: Sized {
    /// Whether the backend declares that it renders an `OFFSET` that no
    /// `LIMIT` precedes.
    spec fn lonely_offset() -> bool;

    /// The text that stands for the bound value number `index`, counted from
    /// one, in a statement.
    spec fn placeholder(index: nat) -> Seq<char>;

    /// Whether the backend declares the lonely-offset capability.
    fn supports_lonely_offset() -> (declared: bool)
        ensures
            declared == Self::lonely_offset(),
    ;

    /// Appends the placeholder of the bound value number `index` to `sql`.
    fn push_placeholder(sql: &mut String, index: usize)
        ensures
            final(sql)@ == old(sql)@ + Self::placeholder(index as nat),
    ;
}

/// The capability of rendering an `OFFSET` clause that stands alone. Only a
/// backend that declares the capability can carry the marker.
pub trait SupportsLonelyOffset: Backend {
    proof fn lonely_offset_declared()
        ensures
            Self::lonely_offset(),
    ;
}

/// The PostgreSQL backend.
#[derive(Debug, Clone, Copy, Default)]
pub struct Pg;

/// The MySQL backend.
#[derive(Debug, Clone, Copy, Default)]
pub struct Mysql;

/// The SQLite backend.
#[derive(Debug, Clone, Copy, Default)]
pub struct Sqlite;

fn digit_text(d: usize) -> (text: &'static str)
    requires
        d < 10,
    ensures
        text@ == seq![digit_char(d as nat)],
{
    proof {
        reveal_strlit("0123456789");
        reveal_strlit("0");
        reveal_strlit("1");
        reveal_strlit("2");
        reveal_strlit("3");
        reveal_strlit("4");
        reveal_strlit("5");
        reveal_strlit("6");
        reveal_strlit("7");
        reveal_strlit("8");
        reveal_strlit("9");
    }
    let text = match d {
        0 => "0",
        1 => "1",
        2 => "2",
        3 => "3",
        4 => "4",
        5 => "5",
        6 => "6",
        7 => "7",
        8 => "8",
        _ => "9",
    };
    assert(text@ =~= seq![digit_char(d as nat)]);
    text
}

/// Appends the decimal numeral of `n` to `sql`.
pub fn push_decimal(sql: &mut String, n: usize)
    ensures
        final(sql)@ == old(sql)@ + decimal(n as nat),
    decreases n,
{
    if n < 10 {
        sql.append(digit_text(n));
    } else {
        push_decimal(sql, n / 10);
        sql.append(digit_text(n % 10));
        assert(sql@ =~= old(sql)@ + decimal(n as nat));
    }
}

fn push_question_mark(sql: &mut String)
    ensures
        final(sql)@ == old(sql)@ + seq!['?'],
{
    proof {
        reveal_strlit("?");
    }
    sql.append("?");
    assert(sql@ =~= old(sql)@ + seq!['?']);
}

impl Backend for Pg {
    open spec fn lonely_offset() -> bool {
        true
    }

    open spec fn placeholder(index: nat) -> Seq<char> {
        seq!['$'] + decimal(index)
    }

    fn supports_lonely_offset() -> (declared: bool) {
        true
    }

    fn push_placeholder(sql: &mut String, index: usize) {
        proof {
            reveal_strlit("$");
        }
        sql.append("$");
        push_decimal(sql, index);
        assert(sql@ =~= old(sql)@ + (seq!['$'] + decimal(index as nat)));
    }
}

impl SupportsLonelyOffset for Pg {
    proof fn lonely_offset_declared() {
    }
}

impl Backend for Mysql {
    open spec fn lonely_offset() -> bool {
        false
    }

    open spec fn placeholder(index: nat) -> Seq<char> {
        seq!['?']
    }

    fn supports_lonely_offset() -> (declared: bool) {
        false
    }

    fn push_placeholder(sql: &mut String, index: usize) {
        push_question_mark(sql);
    }
}

impl Backend for Sqlite {
    open spec fn lonely_offset() -> bool {
        false
    }

    open spec fn placeholder(index: nat) -> Seq<char> {
        seq!['?']
    }

    fn supports_lonely_offset() -> (declared: bool) {
        false
    }

    fn push_placeholder(sql: &mut String, index: usize) {
        push_question_mark(sql);
    }
}

} // verus!
