//! Unsigned numbers in the signed columns of the database.

use rusqlite::types::FromSql;
use rusqlite::types::FromSqlError;
use rusqlite::types::ToSql;
use rusqlite::types::ValueRef;
use vstd::prelude::*;

verus! {

/// The decimal text of a number.
pub open spec fn decimal(n: nat) -> Seq<char>
    decreases n,
{
    let digit = ('0' as int + n % 10) as char;
    if n < 10 {
        seq![digit]
    } else {
        decimal(n / 10).push(digit)
    }
}

/// The decimal text of a number that may be below zero.
pub open spec fn signed_decimal(n: int) -> Seq<char> {
    if n < 0 {
        seq!['-'] + decimal((-n) as nat)
    } else {
        decimal(n as nat)
    }
}

/// What is said of a number in this column that is below zero.
pub open spec fn out_of_range(column: usize, value: i64) -> Seq<char> {
    "Integer "@ + signed_decimal(value as int) + " out of range at index "@ + decimal(
        column as nat,
    )
}

/// What `ToSql::to_sql` of `rusqlite` says of a number that no column can hold.
pub uninterp spec fn unbindable(value: u64) -> Seq<char>;

/// `ToSql::to_sql` of `rusqlite` for `u64`: it fails on the numbers above the largest
/// `i64` and on no others. What it says then is a function of the number.
#[verifier::external_body]
pub(crate) fn bind_number(value: u64) -> (r: Result<(), String>)
    ensures
        match r {
            Ok(_) => value <= i64::MAX,
            Err(words) => value > i64::MAX && words@ == unbindable(value),
        },
{
    match value.to_sql() {
        Ok(_) => Ok(()),
        Err(e) => Err(e.to_string()),
    }
}

/// `FromSql::column_result` of `rusqlite` for `u64`, on an integer that is read from
/// this column: it gives the number, and fails on the numbers below zero. The words are
/// those of the error that `Row::get` makes of it, which has other words for the column
/// `usize::MAX`.
#[verifier::external_body]
pub(crate) fn read_number(column: usize, value: i64) -> (r: Result<u64, String>)
    requires
        column < usize::MAX,
    ensures
        match r {
            Ok(n) => value >= 0 && n == value,
            Err(words) => value < 0 && words@ == out_of_range(column, value),
        },
{
    match u64::column_result(ValueRef::Integer(value)) {
        Ok(n) => Ok(n),
        Err(FromSqlError::OutOfRange(i)) => {
            Err(rusqlite::Error::IntegralValueOutOfRange(column, i).to_string())
        },
        Err(e) => Err(e.to_string()),
    }
}

} // verus!
