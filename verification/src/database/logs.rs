//! Statements and decoders of the daily log.

use crate::database::statement;
use crate::date::Date;
use crate::error::DecodeError;
use crate::ingredients::{Ingredient, IngredientView, LogEntry, LogEntryView};
use crate::sql::{
    amount_at, spec_amount_at, spec_uint_at, uint_at, SqlData, SqlValue, Statement, StatementView,
};
use vstd::prelude::*;

verus! {

/// Stores a log entry: the date as ISO 8601 text, the identity of the
/// ingredient and the fraction of its serving.
pub const INSERT_LOG_ENTRY: &'static str =
    "INSERT INTO daily_logs (date, ingredient_id, fraction) VALUES (?1, ?2, ?3);";

/// The log entries of the date whose ISO 8601 text is bound to `?1`.
pub const SELECT_LOG_ENTRIES: &'static str =
    "SELECT id, date, ingredient_id, fraction FROM daily_logs WHERE date = ?1;";

/// The number of columns of a log row: `id`, `date`, `ingredient_id`,
/// `fraction`.
pub const LOG_COLUMNS: usize = 4;

/// A log entry as it is stored: with the identity of its ingredient in
/// place of the ingredient.
#[derive(Clone, Copy, Debug, PartialEq, Eq, Structural)]
pub struct LogRow {
    pub id: u32,
    pub ingredient_id: u32,
    pub fraction: u32,
}

impl DeepView for LogRow {
    type V = LogRow;

    open spec fn deep_view(&self) -> LogRow {
        *self
    }
}

/// The statement that stores an entry under a date.
pub open spec fn spec_insert_log_entry(date: Date, entry: LogEntryView) -> StatementView {
    StatementView {
        sql: INSERT_LOG_ENTRY@,
        params: seq![
            SqlData::Text(date.spec_to_iso()),
            SqlData::Integer(entry.ingredient.id as i64),
            SqlData::Real(entry.fraction as i64),
        ],
    }
}

/// The query for the entries of a date.
pub open spec fn spec_get_log_entries(date: Date) -> StatementView {
    StatementView { sql: SELECT_LOG_ENTRIES@, params: seq![SqlData::Text(date.spec_to_iso())] }
}

/// The stored entry that a row of four columns describes. The date column
/// is not read: the query has chosen the rows by it.
pub open spec fn spec_read_log_row(row: Seq<SqlData>) -> Result<LogRow, DecodeError> {
    if row.len() != LOG_COLUMNS {
        Err(DecodeError::ColumnCount { expected: LOG_COLUMNS, found: row.len() as usize })
    } else {
        match spec_uint_at(row, 0) {
            Err(e) => Err(e),
            Ok(id) => match spec_uint_at(row, 2) {
                Err(e) => Err(e),
                Ok(ingredient_id) => match spec_amount_at(row, 3) {
                    Err(e) => Err(e),
                    Ok(fraction) => Ok(LogRow { id, ingredient_id, fraction }),
                },
            },
        }
    }
}

/// The stored entries that rows describe, or the error of the first row
/// that describes none.
pub open spec fn spec_read_log_rows(rows: Seq<Seq<SqlData>>) -> Result<Seq<LogRow>, DecodeError>
    decreases rows.len(),
{
    if rows.len() == 0 {
        Ok(Seq::empty())
    } else {
        match spec_read_log_rows(rows.drop_last()) {
            Err(e) => Err(e),
            Ok(entries) => match spec_read_log_row(rows.last()) {
                Err(e) => Err(e),
                Ok(entry) => Ok(entries.push(entry)),
            },
        }
    }
}

/// The entry that a stored entry becomes once its ingredient was looked
/// up: none if no ingredient was found, or another than the row names.
pub open spec fn spec_resolve(row: LogRow, found: Option<IngredientView>) -> Option<LogEntryView> {
    match found {
        Some(ingredient) => if ingredient.id == row.ingredient_id {
            Some(LogEntryView { id: row.id, ingredient, fraction: row.fraction })
        } else {
            None
        },
        None => None,
    }
}

/// The entries that stored entries become, in their order, those without
/// their ingredient left out.
pub open spec fn spec_resolve_all(lookups: Seq<(LogRow, Option<IngredientView>)>) -> Seq<
    LogEntryView,
>
    decreases lookups.len(),
{
    if lookups.len() == 0 {
        Seq::empty()
    } else {
        let before = spec_resolve_all(lookups.drop_last());
        match spec_resolve(lookups.last().0, lookups.last().1) {
            Some(entry) => before.push(entry),
            None => before,
        }
    }
}

/// The statement that stores a log entry under a date. That the
/// ingredient exists is left to the foreign key of the store.
pub fn insert_log_entry(date: &Date, log_entry: &LogEntry) -> (insertion: Statement)
    ensures
        insertion@ == spec_insert_log_entry(*date, log_entry@),
{
    let params: Vec<SqlValue> = vec![
        SqlValue::Text(date.to_iso()),
        SqlValue::Integer(log_entry.ingredient.id as i64),
        SqlValue::Real(log_entry.fraction as i64),
    ];
    assert(params.deep_view() =~= spec_insert_log_entry(*date, log_entry@).params);
    statement(INSERT_LOG_ENTRY, params)
}

/// The query for the entries of exactly the given date.
pub fn get_log_entries(date: &Date) -> (query: Statement)
    ensures
        query@ == spec_get_log_entries(*date),
{
    let params: Vec<SqlValue> = vec![SqlValue::Text(date.to_iso())];
    assert(params.deep_view() =~= seq![SqlData::Text(date.spec_to_iso())]);
    statement(SELECT_LOG_ENTRIES, params)
}

/// Decodes one row of a log query.
pub fn read_log_row(row: &Vec<SqlValue>) -> (entry: Result<LogRow, DecodeError>)
    ensures
        entry == spec_read_log_row(row.deep_view()),
{
    if row.len() != LOG_COLUMNS {
        return Err(DecodeError::ColumnCount { expected: LOG_COLUMNS, found: row.len() });
    }
    let id = match uint_at(row, 0) {
        Ok(id) => id,
        Err(e) => return Err(e),
    };
    let ingredient_id = match uint_at(row, 2) {
        Ok(id) => id,
        Err(e) => return Err(e),
    };
    match amount_at(row, 3) {
        Ok(fraction) => Ok(LogRow { id, ingredient_id, fraction }),
        Err(e) => Err(e),
    }
}

/// Decodes the rows of a log query, in their order. The first row that
/// cannot be decoded fails the whole read.
pub fn read_log_rows(rows: &Vec<Vec<SqlValue>>) -> (entries: Result<Vec<LogRow>, DecodeError>)
    ensures
        match entries {
            Ok(v) => spec_read_log_rows(rows.deep_view()) == Ok::<Seq<LogRow>, DecodeError>(v@),
            Err(e) => spec_read_log_rows(rows.deep_view()) == Err::<Seq<LogRow>, DecodeError>(e),
        },
{
    let mut entries: Vec<LogRow> = Vec::new();
    let mut i: usize = 0;
    while i < rows.len()
        invariant
            i <= rows.len(),
            spec_read_log_rows(rows.deep_view().subrange(0, i as int)) == Ok::<
                Seq<LogRow>,
                DecodeError,
            >(entries@),
        decreases rows.len() - i,
    {
        let ghost next = rows.deep_view().subrange(0, i + 1);
        assert(next.drop_last() =~= rows.deep_view().subrange(0, i as int));
        assert(next.last() == rows[i as int].deep_view());
        match read_log_row(&rows[i]) {
            Ok(entry) => entries.push(entry),
            Err(e) => {
                proof {
                    lemma_read_log_rows_error_stays(rows.deep_view(), i + 1);
                }
                return Err(e);
            },
        }
        i = i + 1;
    }
    assert(rows.deep_view().subrange(0, i as int) =~= rows.deep_view());
    Ok(entries)
}

/// Joins a stored entry with the ingredient that was looked up for it. An
/// entry whose ingredient is gone gives `None`.
pub fn resolve_log_entry(row: LogRow, found: Option<Ingredient>) -> (entry: Option<LogEntry>)
    ensures
        entry.deep_view() == spec_resolve(row, found.deep_view()),
{
    match found {
        Some(ingredient) => {
            if ingredient.id == row.ingredient_id {
                Some(LogEntry { id: row.id, ingredient, fraction: row.fraction })
            } else {
                None
            }
        },
        None => None,
    }
}

/// Joins stored entries with the ingredients that were looked up for
/// them. An entry whose ingredient is gone is left out and the others are
/// kept, in their order.
pub fn resolve_log_entries(lookups: Vec<(LogRow, Option<Ingredient>)>) -> (entries: Vec<LogEntry>)
    ensures
        entries.deep_view() == spec_resolve_all(lookups.deep_view()),
{
    let ghost all = lookups.deep_view();
    let ghost raw = lookups@;
    let mut entries: Vec<LogEntry> = Vec::new();
    assert(entries.deep_view() =~= Seq::empty());
    for lookup in it: lookups
        invariant
            it.seq() == raw,
            all.len() == raw.len(),
            forall|k: int| 0 <= k < raw.len() ==> all[k] == (#[trigger] raw[k]).deep_view(),
            entries.deep_view() == spec_resolve_all(all.subrange(0, it.index() as int)),
    {
        let ghost before = entries.deep_view();
        let ghost next = all.subrange(0, it.index() + 1);
        assert(next.drop_last() =~= all.subrange(0, it.index() as int));
        assert(next.last() == lookup.deep_view());
        let (row, found) = lookup;
        match resolve_log_entry(row, found) {
            Some(entry) => {
                entries.push(entry);
                assert(entries.deep_view() =~= before.push(entry@));
            },
            None => {},
        }
    }
    assert(all.subrange(0, all.len() as int) =~= all);
    entries
}

/// Once a row describes no stored entry, reading further rows gives the
/// same error.
proof fn lemma_read_log_rows_error_stays(rows: Seq<Seq<SqlData>>, n: int)
    requires
        0 <= n <= rows.len(),
        spec_read_log_rows(rows.subrange(0, n)) is Err,
    ensures
        spec_read_log_rows(rows) == spec_read_log_rows(rows.subrange(0, n)),
    decreases rows.len() - n,
{
    if n < rows.len() {
        assert(rows.drop_last().subrange(0, n) =~= rows.subrange(0, n));
        lemma_read_log_rows_error_stays(rows.drop_last(), n);
    } else {
        assert(rows.subrange(0, n) =~= rows);
    }
}

} // verus!
