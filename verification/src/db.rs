//! The runtime's database values, rows and result records, and how a
//! column is decoded into a declared type.
//!
//! A float column carries its `f64` bits. A row lists its columns by name,
//! each once, in ascending name order.

use vstd::prelude::*;
use crate::errors::RuntimeError;
use crate::text::{cat, cat3, owned, str_eq};

verus! {

/// One column value.
pub enum DbValue {
    Null,
    Integer(i64),
    Float(u64),
    Text(String),
    Bool(bool),
}

pub open spec fn value_kind(v: DbValue) -> Seq<char> {
    match v {
        DbValue::Null => "Null"@,
        DbValue::Integer(_) => "Int"@,
        DbValue::Float(_) => "Float"@,
        DbValue::Text(_) => "String"@,
        DbValue::Bool(_) => "Bool"@,
    }
}

impl DbValue {
    /// The value's kind, as the language names it.
    pub fn kind(&self) -> (r: &'static str)
        ensures
            r@ == value_kind(*self),
    {
        match self {
            DbValue::Null => "Null",
            DbValue::Integer(_) => "Int",
            DbValue::Float(_) => "Float",
            DbValue::Text(_) => "String",
            DbValue::Bool(_) => "Bool",
        }
    }
}

/// A column value with its kind.
pub struct DbCell {
    pub kind: String,
    pub value: DbValue,
    pub redacted: bool,
}

/// A named column of a row.
pub struct DbColumn {
    pub name: String,
    pub cell: DbCell,
}

/// The rows a query returned.
pub struct DbQueryRows {
    pub rows: Vec<Vec<DbColumn>>,
    pub row_count: usize,
}

/// Rows a statement changed.
pub struct DbExecuteResult {
    pub rows_affected: u64,
}

/// A column value that did not decode into the declared type.
pub struct DbDecodeError {
    pub field_path: String,
    pub expected_type: String,
    pub received_kind: String,
    pub message: String,
}

/// The position of the column named `field`, or -1.
pub open spec fn find_column(row: Seq<DbColumn>, field: Seq<char>) -> int
    decreases row.len(),
{
    if row.len() == 0 {
        -1
    } else if find_column(row.drop_last(), field) >= 0 {
        find_column(row.drop_last(), field)
    } else if row.last().name@ == field {
        row.len() - 1
    } else {
        -1
    }
}

pub open spec fn is_decode_error(
    e: DbDecodeError,
    field: Seq<char>,
    expected: Seq<char>,
    received: Seq<char>,
    message: Seq<char>,
) -> bool {
    &&& e.field_path@ == field
    &&& e.expected_type@ == expected
    &&& e.received_kind@ == received
    &&& e.message@ == message
}

fn column_index(row: &Vec<DbColumn>, field: &str) -> (r: Option<usize>)
    ensures
        match r {
            Some(i) => i < row@.len() && find_column(row@, field@) == i,
            None => find_column(row@, field@) < 0,
        },
{
    let mut i: usize = 0;
    while i < row.len()
        invariant
            i <= row@.len(),
            find_column(row@.take(i as int), field@) < 0,
        decreases row@.len() - i,
    {
        assert(row@.take(i as int + 1).drop_last() =~= row@.take(i as int));
        if str_eq(&row[i].name, field) {
            proof {
                lemma_find_column_extends(row@, i as int + 1, field@);
            }
            return Some(i);
        }
        i += 1;
    }
    assert(row@.take(row@.len() as int) =~= row@);
    None
}

/// A column found among the first `n` is found at the same place in the
/// whole row.
proof fn lemma_find_column_extends(row: Seq<DbColumn>, n: int, field: Seq<char>)
    requires
        0 <= n <= row.len(),
        find_column(row.take(n), field) >= 0,
    ensures
        find_column(row, field) == find_column(row.take(n), field),
    decreases row.len() - n,
{
    if n == row.len() {
        assert(row.take(n) =~= row);
    } else {
        assert(row.take(n + 1).drop_last() =~= row.take(n));
        lemma_find_column_extends(row, n + 1, field);
    }
}

fn decode_error(field: &str, expected: &str, received: &str, message: &str) -> (e: DbDecodeError)
    ensures
        is_decode_error(e, field@, expected@, received@, message@),
{
    DbDecodeError {
        field_path: owned(field),
        expected_type: owned(expected),
        received_kind: owned(received),
        message: owned(message),
    }
}

/// The text in column `field`: a missing column, or one that does not
/// hold text, is a decode error naming what was there.
pub fn decode_string(row: &Vec<DbColumn>, field: &str) -> (r: Result<String, DbDecodeError>)
    ensures
        find_column(row@, field@) < 0 ==> (r matches Err(e) && is_decode_error(
            e,
            field@,
            "String"@,
            "missing"@,
            "missing column"@,
        )),
        find_column(row@, field@) >= 0 ==> match row@[find_column(row@, field@)].cell.value {
            DbValue::Text(t) => r matches Ok(s) && s@ == t@,
            v => r matches Err(e) && is_decode_error(
                e,
                field@,
                "String"@,
                value_kind(v),
                "wrong value kind"@,
            ),
        },
{
    match column_index(row, field) {
        None => Err(decode_error(field, "String", "missing", "missing column")),
        Some(i) => match &row[i].cell.value {
            DbValue::Text(t) => Ok(owned(t)),
            other => Err(decode_error(field, "String", other.kind(), "wrong value kind")),
        },
    }
}

/// The integer in column `field`: a missing column, or one that does not
/// hold an integer, is a decode error naming what was there.
pub fn decode_i64(row: &Vec<DbColumn>, field: &str) -> (r: Result<i64, DbDecodeError>)
    ensures
        find_column(row@, field@) < 0 ==> (r matches Err(e) && is_decode_error(
            e,
            field@,
            "Int"@,
            "missing"@,
            "missing column"@,
        )),
        find_column(row@, field@) >= 0 ==> match row@[find_column(row@, field@)].cell.value {
            DbValue::Integer(n) => r == Ok::<i64, DbDecodeError>(n),
            v => r matches Err(e) && is_decode_error(
                e,
                field@,
                "Int"@,
                value_kind(v),
                "wrong value kind"@,
            ),
        },
{
    match column_index(row, field) {
        None => Err(decode_error(field, "Int", "missing", "missing column")),
        Some(i) => match &row[i].cell.value {
            DbValue::Integer(n) => Ok(*n),
            other => Err(decode_error(field, "Int", other.kind(), "wrong value kind")),
        },
    }
}

/// The error a failed statement is reported as; the values bound to it are
/// left out.
pub fn redacted_sql_error(detail: &str) -> (e: RuntimeError)
    ensures
        e == RuntimeError::Other(e->Other_0) && e->Other_0@ == "std.db sqlite error: "@ + detail@
            + "; values redacted"@,
{
    RuntimeError::Other(cat3("std.db sqlite error: ", detail, "; values redacted"))
}

/// The error an unopenable database is reported as, with its path when it
/// is a file.
pub fn open_failed(path: Option<&str>, detail: &str) -> (e: RuntimeError)
    ensures
        e is Other,
        e->Other_0@ == (match path {
            Some(p) => "std.db sqlite open failed for `"@ + p@ + "`: "@ + detail@,
            None => "std.db sqlite open failed: "@ + detail@,
        }),
{
    match path {
        Some(p) => {
            let head = cat3("std.db sqlite open failed for `", p, "`: ");
            RuntimeError::Other(cat(&head, detail))
        },
        None => RuntimeError::Other(cat("std.db sqlite open failed: ", detail)),
    }
}

} // verus!
