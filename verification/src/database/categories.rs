//! Statements and decoders of the categories.

use crate::color::Color;
use crate::database::{plain, spec_plain, statement};
use crate::error::DecodeError;
use crate::ingredients::{Category, CategoryView};
use crate::sql::{uint_at, spec_uint_at, spec_text_at, text_at, SqlData, SqlValue, Statement, StatementView};
use vstd::prelude::*;

verus! {

/// Stores a category: its name, the name of its icon and the hex text of
/// its colour.
pub const INSERT_CATEGORY: &'static str =
    "INSERT INTO categories (name, icon_name, icon_color) VALUES (?1, ?2, ?3);";

/// Every category.
pub const SELECT_CATEGORIES: &'static str =
    "SELECT id, name, icon_name, icon_color FROM categories;";

/// Deletes the category whose identity is bound to `?1`; its links to
/// ingredients go with it, the ingredients stay.
pub const DELETE_CATEGORY: &'static str = "DELETE FROM categories WHERE id = ?1;";

/// The number of columns of a category row: `id`, `name`, `icon_name`,
/// `icon_color`.
pub const CATEGORY_COLUMNS: usize = 4;

/// The category that a row of four columns describes: its identity, its
/// name, the name of its icon and the hex text of its colour.
pub open spec fn spec_read_category(row: Seq<SqlData>) -> Result<CategoryView, DecodeError> {
    if row.len() != CATEGORY_COLUMNS {
        Err(DecodeError::ColumnCount { expected: CATEGORY_COLUMNS, found: row.len() as usize })
    } else {
        match spec_uint_at(row, 0) {
            Err(e) => Err(e),
            Ok(id) => match spec_text_at(row, 1) {
                Err(e) => Err(e),
                Ok(name) => match spec_text_at(row, 2) {
                    Err(e) => Err(e),
                    Ok(icon_name) => match spec_text_at(row, 3) {
                        Err(e) => Err(e),
                        Ok(hex) => match Color::spec_from_hex(hex) {
                            None => Err(DecodeError::InvalidColor { column: 3 }),
                            Some(icon_color) => Ok(
                                CategoryView { id, name, icon_name, icon_color },
                            ),
                        },
                    },
                },
            },
        }
    }
}

/// The categories that rows describe, or the error of the first row that
/// describes none.
pub open spec fn spec_read_categories(rows: Seq<Seq<SqlData>>) -> Result<
    Seq<CategoryView>,
    DecodeError,
>
    decreases rows.len(),
{
    if rows.len() == 0 {
        Ok(Seq::empty())
    } else {
        match spec_read_categories(rows.drop_last()) {
            Err(e) => Err(e),
            Ok(categories) => match spec_read_category(rows.last()) {
                Err(e) => Err(e),
                Ok(category) => Ok(categories.push(category)),
            },
        }
    }
}

/// Decodes one row of a category query. A colour text that is no hex
/// colour is an error, as is any other column of the wrong kind.
pub fn read_category(row: &Vec<SqlValue>) -> (category: Result<Category, DecodeError>)
    ensures
        match category {
            Ok(c) => spec_read_category(row.deep_view()) == Ok::<CategoryView, DecodeError>(c@),
            Err(e) => spec_read_category(row.deep_view()) == Err::<CategoryView, DecodeError>(e),
        },
{
    if row.len() != CATEGORY_COLUMNS {
        return Err(DecodeError::ColumnCount { expected: CATEGORY_COLUMNS, found: row.len() });
    }
    let id = match uint_at(row, 0) {
        Ok(id) => id,
        Err(e) => return Err(e),
    };
    let name = match text_at(row, 1) {
        Ok(name) => name,
        Err(e) => return Err(e),
    };
    let icon_name = match text_at(row, 2) {
        Ok(icon_name) => icon_name,
        Err(e) => return Err(e),
    };
    let hex = match text_at(row, 3) {
        Ok(hex) => hex,
        Err(e) => return Err(e),
    };
    match Color::from_hex(hex.as_str()) {
        Some(icon_color) => Ok(Category { id, name, icon_name, icon_color }),
        None => Err(DecodeError::InvalidColor { column: 3 }),
    }
}

/// Decodes the rows of a category query, in their order. The first row
/// that cannot be decoded fails the whole read.
pub fn read_categories(rows: &Vec<Vec<SqlValue>>) -> (categories: Result<
    Vec<Category>,
    DecodeError,
>)
    ensures
        match categories {
            Ok(c) => spec_read_categories(rows.deep_view()) == Ok::<
                Seq<CategoryView>,
                DecodeError,
            >(c.deep_view()),
            Err(e) => spec_read_categories(rows.deep_view()) == Err::<
                Seq<CategoryView>,
                DecodeError,
            >(e),
        },
{
    let mut categories: Vec<Category> = Vec::new();
    let mut i: usize = 0;
    assert(categories.deep_view() =~= Seq::empty());
    while i < rows.len()
        invariant
            i <= rows.len(),
            spec_read_categories(rows.deep_view().subrange(0, i as int)) == Ok::<
                Seq<CategoryView>,
                DecodeError,
            >(categories.deep_view()),
        decreases rows.len() - i,
    {
        let ghost before = categories.deep_view();
        let ghost done = rows.deep_view().subrange(0, i as int);
        let ghost next = rows.deep_view().subrange(0, i + 1);
        assert(next.drop_last() =~= done);
        assert(next.last() == rows[i as int].deep_view());
        match read_category(&rows[i]) {
            Ok(category) => {
                categories.push(category);
                assert(categories.deep_view() =~= before.push(category@));
            },
            Err(e) => {
                proof {
                    lemma_read_categories_error_stays(rows.deep_view(), i + 1);
                }
                return Err(e);
            },
        }
        i = i + 1;
    }
    assert(rows.deep_view().subrange(0, i as int) =~= rows.deep_view());
    Ok(categories)
}

/// Once a row describes no category, reading further rows gives the same
/// error.
proof fn lemma_read_categories_error_stays(rows: Seq<Seq<SqlData>>, n: int)
    requires
        0 <= n <= rows.len(),
        spec_read_categories(rows.subrange(0, n)) is Err,
    ensures
        spec_read_categories(rows) == spec_read_categories(rows.subrange(0, n)),
    decreases rows.len() - n,
{
    if n < rows.len() {
        assert(rows.drop_last().subrange(0, n) =~= rows.subrange(0, n));
        lemma_read_categories_error_stays(rows.drop_last(), n);
    } else {
        assert(rows.subrange(0, n) =~= rows);
    }
}

/// The statement that stores a category, with its colour as hex text.
pub open spec fn spec_insert_category(category: CategoryView) -> StatementView {
    StatementView {
        sql: INSERT_CATEGORY@,
        params: seq![
            SqlData::Text(category.name),
            SqlData::Text(category.icon_name),
            SqlData::Text(category.icon_color.spec_to_hex()),
        ],
    }
}

/// The statement that deletes a category by its identity.
pub open spec fn spec_delete_category(category: CategoryView) -> StatementView {
    StatementView { sql: DELETE_CATEGORY@, params: seq![SqlData::Integer(category.id as i64)] }
}

/// The statement that stores a category. Names may repeat. The identity
/// of the given category is not used: the store gives a new one, which is
/// seen when the categories are read again.
pub fn insert_category(category: &Category) -> (insertion: Statement)
    ensures
        insertion@ == spec_insert_category(category@),
{
    let params: Vec<SqlValue> = vec![
        SqlValue::Text(category.name.clone()),
        SqlValue::Text(category.icon_name.clone()),
        SqlValue::Text(category.icon_color.to_hex()),
    ];
    assert(params.deep_view() =~= spec_insert_category(category@).params);
    statement(INSERT_CATEGORY, params)
}

/// The query for all categories.
pub fn get_categories() -> (query: Statement)
    ensures
        query@ == spec_plain(SELECT_CATEGORIES@),
{
    plain(SELECT_CATEGORIES)
}

/// The statement that deletes a category. It reports no or one row.
pub fn delete_category(category: &Category) -> (deletion: Statement)
    ensures
        deletion@ == spec_delete_category(category@),
{
    let params: Vec<SqlValue> = vec![SqlValue::Integer(category.id as i64)];
    assert(params.deep_view() =~= seq![SqlData::Integer(category.id as i64)]);
    statement(DELETE_CATEGORY, params)
}

/// The statements that delete the given categories, one statement for
/// each in their order. They are to run inside one transaction, so that a
/// failure leaves every category in place.
pub fn delete_categories(categories: &[Category]) -> (deletions: Vec<Statement>)
    ensures
        deletions.deep_view() == categories.deep_view().map_values(
            |c: CategoryView| spec_delete_category(c),
        ),
{
    let mut deletions: Vec<Statement> = Vec::new();
    let mut i: usize = 0;
    while i < categories.len()
        invariant
            i <= categories.len(),
            deletions.len() == i,
            forall|k: int|
                0 <= k < i ==> (#[trigger] deletions[k])@ == spec_delete_category(categories[k]@),
        decreases categories.len() - i,
    {
        deletions.push(delete_category(&categories[i]));
        i = i + 1;
    }
    assert(deletions.deep_view() =~= categories.deep_view().map_values(
        |c: CategoryView| spec_delete_category(c),
    ));
    deletions
}

/// What the insert binds is what the decoder reads: from the row of a
/// stored category, `read_category` gives the category under the identity
/// of the row, with its names and its colour.
pub proof fn lemma_insert_then_read(category: CategoryView, id: u32)
    ensures
        spec_read_category(
            seq![SqlData::Integer(id as i64)] + spec_insert_category(category).params,
        ) == Ok::<CategoryView, DecodeError>(
            CategoryView {
                id,
                name: category.name,
                icon_name: category.icon_name,
                icon_color: category.icon_color,
            },
        ),
{
    Color::lemma_hex_round_trip(category.icon_color);
}

} // verus!
