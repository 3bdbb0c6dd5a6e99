//! Statements for the relational store: their text, the values bound to their
//! parameters, and the kinds of the columns they read back.

use crate::error::DatabaseError;
use crate::ids::{uuid_of_text, uuid_text, Uuid};
use vstd::prelude::*;

verus! {

/// A value bound to a statement parameter or read from a column.
#[derive(Clone, Debug, PartialEq)]
pub enum SqlValue {
    Null,
    Integer(i64),
    Text(String),
}

/// The mathematical value of a `SqlValue`.
pub enum SqlCell {
    Null,
    Integer(int),
    Text(Seq<char>),
}

impl View for SqlValue {
    type V = SqlCell;

    open spec fn view(&self) -> SqlCell {
        match self {
            SqlValue::Null => SqlCell::Null,
            SqlValue::Integer(i) => SqlCell::Integer(*i as int),
            SqlValue::Text(s) => SqlCell::Text(s@),
        }
    }
}

/// The values of a row or of a parameter list.
pub open spec fn cells(values: Seq<SqlValue>) -> Seq<SqlCell> {
    values.map_values(|v: SqlValue| v@)
}

/// How a column is read back from the store.
#[derive(Clone, Copy, Debug, PartialEq, Eq, Structural)]
pub enum ColumnKind {
    Text,
    Integer,
}

/// A parameterized statement: its text, the values for its `?` placeholders in
/// order, and for a query the kinds of the columns of each row it returns.
#[derive(Debug)]
pub struct Statement {
    pub sql: String,
    pub params: Vec<SqlValue>,
    pub columns: Vec<ColumnKind>,
}

/// The characters that a text pattern gives a meaning of their own: the
/// wildcards and the escape character.
pub open spec fn is_like_special(c: char) -> bool {
    c == '\\' || c == '%' || c == '_'
}

/// `s` with each special character preceded by the escape character, so that
/// the pattern matches it literally.
pub open spec fn like_escaped(s: Seq<char>) -> Seq<char>
    decreases s.len(),
{
    if s.len() == 0 {
        seq![]
    } else {
        let c = s.last();
        like_escaped(s.drop_last()) + if is_like_special(c) { seq!['\\', c] } else { seq![c] }
    }
}

/// The text pattern (with `\` as its escape character) that matches any value
/// holding `s` as a substring.
pub open spec fn like_pattern(s: Seq<char>) -> Seq<char> {
    seq!['%'] + like_escaped(s) + seq!['%']
}

pub(crate) fn contains_pattern(s: &str) -> (r: String)
    ensures
        r@ == like_pattern(s@),
{
    proof { reveal_strlit("%"); }
    let n = s.unicode_len();
    let mut out = String::from_str("%");
    let mut i: usize = 0;
    while i < n
        invariant
            n == s@.len(),
            i <= n,
            out@ == seq!['%'] + like_escaped(s@.subrange(0, i as int)),
        decreases n - i,
    {
        let c = s.get_char(i);
        if c == '\\' || c == '%' || c == '_' {
            out.append("\\");
        }
        let one = s.substring_char(i, i + 1);
        assert(one@ =~= seq![c]);
        out.append(one);
        proof {
            let p = s@.subrange(0, i + 1);
            assert(p.drop_last() =~= s@.subrange(0, i as int));
            assert(p.last() == c);
            assert(like_escaped(p) == like_escaped(p.drop_last()) + if is_like_special(c) {
                seq!['\\', c]
            } else {
                seq![c]
            });
            reveal_strlit("\\");
            assert("\\"@ =~= seq!['\\']);
            assert(out@ =~= seq!['%'] + like_escaped(p));
        }
        i = i + 1;
    }
    out.append("%");
    proof { assert(s@.subrange(0, n as int) =~= s@); }
    out
}

pub(crate) fn text_value(s: String) -> (r: SqlValue)
    ensures
        r@ == SqlCell::Text(s@),
{
    SqlValue::Text(s)
}

pub(crate) fn text_columns(n: usize) -> (r: Vec<ColumnKind>)
    ensures
        r@ == Seq::new(n as nat, |i: int| ColumnKind::Text),
{
    let mut out: Vec<ColumnKind> = Vec::new();
    let mut i: usize = 0;
    while i < n
        invariant
            i <= n,
            out@ == Seq::new(i as nat, |k: int| ColumnKind::Text),
        decreases n - i,
    {
        out.push(ColumnKind::Text);
        i = i + 1;
        proof { assert(out@ =~= Seq::new(i as nat, |k: int| ColumnKind::Text)); }
    }
    out
}

/// Whether a write statement changed anything: it did when it affected at least
/// one row.
pub fn rows_changed(rows_affected: u64) -> (r: bool)
    ensures
        r == (rows_affected > 0),
{
    rows_affected > 0
}

} // verus!

verus! {

/// The key parameter of the statements that select, update or delete one record.
pub open spec fn key_cell(id: u128) -> SqlCell {
    SqlCell::Text(uuid_text(id))
}

/// The text held by a cell, if it holds text.
pub open spec fn cell_text(c: SqlCell) -> Option<Seq<char>> {
    match c {
        SqlCell::Text(s) => Some(s),
        _ => None,
    }
}

/// The identifier that a cell's text reads as, if any.
pub open spec fn cell_uuid(c: SqlCell) -> Option<u128> {
    match c {
        SqlCell::Text(s) => uuid_of_text(s),
        _ => None,
    }
}

/// The text in column `i` of a row; any other value is malformed.
pub(crate) fn column_text(row: &Vec<SqlValue>, i: usize) -> (r: Result<String, DatabaseError>)
    requires
        i < row@.len(),
    ensures
        match r {
            Ok(s) => cell_text(row@[i as int]@) == Some(s@),
            Err(e) => cell_text(row@[i as int]@) is None && e is ValidationError,
        },
{
    match &row[i] {
        SqlValue::Text(s) => Ok(s.clone()),
        _ => Err(DatabaseError::ValidationError(String::from_str("expected a text column"))),
    }
}

/// The identifier written in column `i` of a row.
pub(crate) fn column_uuid(row: &Vec<SqlValue>, i: usize) -> (r: Result<Uuid, DatabaseError>)
    requires
        i < row@.len(),
    ensures
        match r {
            Ok(u) => cell_uuid(row@[i as int]@) == Some(u.value),
            Err(e) => cell_uuid(row@[i as int]@) is None && e is ValidationError,
        },
{
    match &row[i] {
        SqlValue::Text(s) => match Uuid::parse_str(s.as_str()) {
            Ok(u) => Ok(u),
            Err(msg) => Err(DatabaseError::ValidationError(msg)),
        },
        _ => Err(DatabaseError::ValidationError(String::from_str("expected an identifier column"))),
    }
}

/// The error for a row whose number of columns is not the one asked for.
pub(crate) fn wrong_width() -> (r: DatabaseError)
    ensures
        r is ValidationError,
{
    DatabaseError::ValidationError(String::from_str("unexpected number of columns"))
}

} // verus!
