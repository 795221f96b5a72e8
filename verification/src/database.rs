//! The repository: for each operation on the store the statements to run,
//! and for each query the decoder of its rows.
//!
//! Nothing here touches a connection. Whoever holds one runs the statements
//! of an operation as a [`transaction::Transaction`] tells, and hands the
//! rows of a query back to the decoder of that query.

pub mod categories;
pub mod ingredients;
pub mod logs;
pub mod schema;
pub mod transaction;

use crate::sql::{SqlData, SqlValue, Statement, StatementView};
use vstd::prelude::*;

verus! {

/// Opens a transaction.
pub const BEGIN_TRANSACTION: &'static str = "BEGIN TRANSACTION;";

/// Keeps what the statements since the opening of the transaction did.
pub const COMMIT: &'static str = "COMMIT;";

/// Undoes what the statements since the opening of the transaction did.
pub const ROLLBACK: &'static str = "ROLLBACK;";

/// Amounts as values of `REAL` columns.
pub open spec fn spec_reals(amounts: Seq<u32>) -> Seq<SqlData> {
    amounts.map_values(|a: u32| SqlData::Real(a as i64))
}

/// A statement without bound values.
pub open spec fn spec_plain(sql: Seq<char>) -> StatementView {
    StatementView { sql, params: Seq::empty() }
}

/// Turns amounts into values of `REAL` columns.
pub(crate) fn reals(amounts: &Vec<u32>) -> (values: Vec<SqlValue>)
    ensures
        values.deep_view() == spec_reals(amounts@),
{
    let mut values: Vec<SqlValue> = Vec::new();
    let mut i: usize = 0;
    while i < amounts.len()
        invariant
            i <= amounts.len(),
            values.len() == i,
            forall|k: int| 0 <= k < i ==> (#[trigger] values[k])@ == SqlData::Real(amounts[k] as i64),
        decreases amounts.len() - i,
    {
        values.push(SqlValue::Real(amounts[i] as i64));
        i = i + 1;
    }
    assert(values.deep_view() =~= spec_reals(amounts@));
    values
}

/// A statement of the given text and values.
pub(crate) fn statement(sql: &str, params: Vec<SqlValue>) -> (stmt: Statement)
    ensures
        stmt@ == (StatementView { sql: sql@, params: params.deep_view() }),
{
    Statement { sql: sql.to_owned(), params }
}

/// A statement of the given text, without values.
pub(crate) fn plain(sql: &str) -> (stmt: Statement)
    ensures
        stmt@ == spec_plain(sql@),
{
    let stmt = Statement { sql: sql.to_owned(), params: Vec::new() };
    assert(stmt.params.deep_view() =~= Seq::empty());
    stmt
}

/// The statement that is run before the statements of an operation.
pub fn begin_transaction() -> (opening: Statement)
    ensures
        opening@ == spec_plain(BEGIN_TRANSACTION@),
{
    plain(BEGIN_TRANSACTION)
}

/// The statement that is run after the last statement of an operation, if
/// all of them succeeded.
pub fn commit() -> (closing: Statement)
    ensures
        closing@ == spec_plain(COMMIT@),
{
    plain(COMMIT)
}

/// The statement that is run in place of the rest of an operation once one
/// of its statements has failed: nothing of the operation stays.
pub fn rollback() -> (closing: Statement)
    ensures
        closing@ == spec_plain(ROLLBACK@),
{
    plain(ROLLBACK)
}

/// The sum of row counts.
pub open spec fn spec_total(counts: Seq<usize>) -> int
    decreases counts.len(),
{
    if counts.len() == 0 {
        0
    } else {
        spec_total(counts.drop_last()) + counts.last()
    }
}

/// Adds up the row counts that the statements of one operation reported:
/// the number of rows that the operation deleted. `None` says that the sum
/// is larger than any count can be.
pub fn total_row_count(counts: &[usize]) -> (total: Option<usize>)
    ensures
        match total {
            Some(t) => t == spec_total(counts@),
            None => spec_total(counts@) > usize::MAX,
        },
{
    let mut total: usize = 0;
    let mut i: usize = 0;
    while i < counts.len()
        invariant
            i <= counts.len(),
            total == spec_total(counts@.subrange(0, i as int)),
        decreases counts.len() - i,
    {
        assert(counts@.subrange(0, i + 1).drop_last() =~= counts@.subrange(0, i as int));
        match total.checked_add(counts[i]) {
            Some(sum) => total = sum,
            None => {
                proof {
                    lemma_total_grows(counts@, i + 1);
                }
                return None;
            },
        }
        i = i + 1;
    }
    assert(counts@.subrange(0, i as int) =~= counts@);
    Some(total)
}

/// The sum of all counts is at least the sum of the first `n`.
proof fn lemma_total_grows(counts: Seq<usize>, n: int)
    requires
        0 <= n <= counts.len(),
    ensures
        spec_total(counts.subrange(0, n)) <= spec_total(counts),
    decreases counts.len() - n,
{
    if n < counts.len() {
        assert(counts.drop_last().subrange(0, n) =~= counts.subrange(0, n));
        lemma_total_grows(counts.drop_last(), n);
    } else {
        assert(counts.subrange(0, n) =~= counts);
    }
}

} // verus!
