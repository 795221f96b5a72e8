//! Values, statements and rows as they pass between this library and the
//! store, and the readers that take one column out of a row.

use crate::error::DecodeError;
use vstd::prelude::*;

verus! {

/// One value bound to a statement or found in a column. A number of a
/// `REAL` column travels as a whole number of thousandths.
#[derive(Clone, Debug, PartialEq, Eq)]
pub enum SqlValue {
    Null,
    Integer(i64),
    Real(i64),
    Text(String),
    Blob(Vec<u8>),
}

/// What a [`SqlValue`] holds, as a mathematical value.
pub enum SqlData {
    Null,
    Integer(i64),
    Real(i64),
    Text(Seq<char>),
    Blob(Seq<u8>),
}

impl View for SqlValue {
    type V = SqlData;

    open spec fn view(&self) -> SqlData {
        match self {
            SqlValue::Null => SqlData::Null,
            SqlValue::Integer(i) => SqlData::Integer(*i),
            SqlValue::Real(t) => SqlData::Real(*t),
            SqlValue::Text(s) => SqlData::Text(s@),
            SqlValue::Blob(b) => SqlData::Blob(b@),
        }
    }
}

impl DeepView for SqlValue {
    type V = SqlData;

    open spec fn deep_view(&self) -> SqlData {
        self@
    }
}

/// A statement with the values for its numbered placeholders: `params[0]`
/// is bound to `?1`. No value is ever written into the text.
#[derive(Clone, Debug, PartialEq, Eq)]
pub struct Statement {
    pub sql: String,
    pub params: Vec<SqlValue>,
}

/// What a [`Statement`] holds, as mathematical values.
pub struct StatementView {
    pub sql: Seq<char>,
    pub params: Seq<SqlData>,
}

impl View for Statement {
    type V = StatementView;

    open spec fn view(&self) -> StatementView {
        StatementView { sql: self.sql@, params: self.params.deep_view() }
    }
}

impl DeepView for Statement {
    type V = StatementView;

    open spec fn deep_view(&self) -> StatementView {
        self@
    }
}

/// The largest whole number that, written in thousandths, is still an
/// amount.
pub const MAX_WHOLE_AMOUNT: i64 = 4_294_967;

/// The identity or code in column `column`: an integer from 0 to
/// `u32::MAX`.
pub open spec fn spec_uint_at(row: Seq<SqlData>, column: int) -> Result<u32, DecodeError>
    recommends
        0 <= column < row.len(),
{
    match row[column] {
        SqlData::Integer(i) => if 0 <= i <= u32::MAX {
            Ok(i as u32)
        } else {
            Err(DecodeError::OutOfRange { column: column as usize })
        },
        _ => Err(DecodeError::ColumnType { column: column as usize }),
    }
}

/// The amount in column `column`, in thousandths: a real number from 0 to
/// `u32::MAX` thousandths, or a whole number that is no larger.
pub open spec fn spec_amount_at(row: Seq<SqlData>, column: int) -> Result<u32, DecodeError>
    recommends
        0 <= column < row.len(),
{
    match row[column] {
        SqlData::Real(t) => if 0 <= t <= u32::MAX {
            Ok(t as u32)
        } else {
            Err(DecodeError::OutOfRange { column: column as usize })
        },
        SqlData::Integer(i) => if 0 <= i <= MAX_WHOLE_AMOUNT {
            Ok((i * 1000) as u32)
        } else {
            Err(DecodeError::OutOfRange { column: column as usize })
        },
        _ => Err(DecodeError::ColumnType { column: column as usize }),
    }
}

/// The text in column `column`.
pub open spec fn spec_text_at(row: Seq<SqlData>, column: int) -> Result<Seq<char>, DecodeError>
    recommends
        0 <= column < row.len(),
{
    match row[column] {
        SqlData::Text(s) => Ok(s),
        _ => Err(DecodeError::ColumnType { column: column as usize }),
    }
}

/// The amounts in the columns from `from` up to `to`, or the error of the
/// first of them that holds no amount.
pub open spec fn spec_amounts_at(row: Seq<SqlData>, from: int, to: int) -> Result<
    Seq<u32>,
    DecodeError,
>
    recommends
        0 <= from <= to <= row.len(),
    decreases to - from,
{
    if from >= to {
        Ok(Seq::empty())
    } else {
        match spec_amounts_at(row, from, to - 1) {
            Err(e) => Err(e),
            Ok(amounts) => match spec_amount_at(row, to - 1) {
                Err(e) => Err(e),
                Ok(amount) => Ok(amounts.push(amount)),
            },
        }
    }
}

/// Reads an identity or a code from a column of a row.
pub(crate) fn uint_at(row: &Vec<SqlValue>, column: usize) -> (id: Result<u32, DecodeError>)
    requires
        column < row.len(),
    ensures
        id == spec_uint_at(row.deep_view(), column as int),
{
    match &row[column] {
        SqlValue::Integer(i) => {
            if 0 <= *i && *i <= 0xffff_ffff {
                Ok(*i as u32)
            } else {
                Err(DecodeError::OutOfRange { column })
            }
        },
        _ => Err(DecodeError::ColumnType { column }),
    }
}

/// Reads an amount, in thousandths, from a column of a row.
pub(crate) fn amount_at(row: &Vec<SqlValue>, column: usize) -> (amount: Result<u32, DecodeError>)
    requires
        column < row.len(),
    ensures
        amount == spec_amount_at(row.deep_view(), column as int),
{
    match &row[column] {
        SqlValue::Real(t) => {
            if 0 <= *t && *t <= 0xffff_ffff {
                Ok(*t as u32)
            } else {
                Err(DecodeError::OutOfRange { column })
            }
        },
        SqlValue::Integer(i) => {
            if 0 <= *i && *i <= MAX_WHOLE_AMOUNT {
                Ok((*i * 1000) as u32)
            } else {
                Err(DecodeError::OutOfRange { column })
            }
        },
        _ => Err(DecodeError::ColumnType { column }),
    }
}

/// Reads a text from a column of a row.
pub(crate) fn text_at(row: &Vec<SqlValue>, column: usize) -> (text: Result<String, DecodeError>)
    requires
        column < row.len(),
    ensures
        match text {
            Ok(s) => spec_text_at(row.deep_view(), column as int) == Ok::<Seq<char>, DecodeError>(s@),
            Err(e) => spec_text_at(row.deep_view(), column as int) == Err::<Seq<char>, DecodeError>(e),
        },
{
    match &row[column] {
        SqlValue::Text(s) => Ok(s.clone()),
        _ => Err(DecodeError::ColumnType { column }),
    }
}

/// Reads the amounts of the columns from `from` up to `to`, stopping at
/// the first that holds none.
pub(crate) fn amounts_at(row: &Vec<SqlValue>, from: usize, to: usize) -> (amounts: Result<
    Vec<u32>,
    DecodeError,
>)
    requires
        from <= to <= row.len(),
    ensures
        match amounts {
            Ok(v) => spec_amounts_at(row.deep_view(), from as int, to as int) == Ok::<
                Seq<u32>,
                DecodeError,
            >(v@),
            Err(e) => spec_amounts_at(row.deep_view(), from as int, to as int) == Err::<
                Seq<u32>,
                DecodeError,
            >(e),
        },
{
    let mut amounts: Vec<u32> = Vec::new();
    let mut column: usize = from;
    while column < to
        invariant
            from <= column <= to <= row.len(),
            spec_amounts_at(row.deep_view(), from as int, column as int) == Ok::<
                Seq<u32>,
                DecodeError,
            >(amounts@),
        decreases to - column,
    {
        match amount_at(row, column) {
            Ok(amount) => amounts.push(amount),
            Err(e) => {
                proof {
                    lemma_amounts_error_stays(row.deep_view(), from as int, column as int + 1, to as int);
                }
                return Err(e);
            },
        }
        column = column + 1;
    }
    Ok(amounts)
}

/// Once a column holds no amount, reading further columns gives the same
/// error.
proof fn lemma_amounts_error_stays(row: Seq<SqlData>, from: int, mid: int, to: int)
    requires
        from <= mid <= to,
        spec_amounts_at(row, from, mid) is Err,
    ensures
        spec_amounts_at(row, from, to) == spec_amounts_at(row, from, mid),
    decreases to - mid,
{
    if mid < to {
        lemma_amounts_error_stays(row, from, mid, to - 1);
    }
}

/// What is read from columns `from` up to `to` has one amount per column,
/// each read from its own column.
pub(crate) proof fn lemma_amounts_each(row: Seq<SqlData>, from: int, to: int)
    requires
        from <= to,
    ensures
        spec_amounts_at(row, from, to) matches Ok(amounts) ==> amounts.len() == to - from
            && forall|k: int|
            0 <= k < to - from ==> spec_amount_at(row, from + k) == Ok::<u32, DecodeError>(
                #[trigger] amounts[k],
            ),
    decreases to - from,
{
    if from < to {
        lemma_amounts_each(row, from, to - 1);
    }
}

} // verus!
