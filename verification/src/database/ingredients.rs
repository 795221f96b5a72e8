//! Statements and decoders of the ingredients.

use crate::database::categories::{read_categories, spec_read_categories};
use crate::database::{plain, reals, spec_plain, spec_reals, statement};
use crate::error::DecodeError;
use crate::ingredients::{Category, CategoryView, Ingredient, IngredientView, NutritionalInfo};
use crate::sql::{
    amount_at, amounts_at, lemma_amounts_each, spec_amount_at, spec_amounts_at, spec_text_at,
    spec_uint_at, text_at, uint_at, SqlData, SqlValue, Statement, StatementView,
};
use crate::units::Unit;
use vstd::prelude::*;

verus! {

/// Every ingredient that has a serving with all five nutrient groups, one
/// row for each such serving.
pub const SELECT_INGREDIENTS: &'static str = "SELECT
    ing.id, ing.name, ing.brand,
    ni.default_amount, ni.default_unit, ni.kilocalories,
    ps.histidine, ps.isoleucine, ps.leucine, ps.lysine, ps.methionine,
    ps.phenylalanine, ps.threonine, ps.tryptophan, ps.valine, ps.alanine, ps.arginine,
    ps.asparagine, ps.aspartic_acid, ps.cysteine, ps.glutamic_acid, ps.glutamine,
    ps.glycine, ps.proline, ps.serine, ps.tyrosine,
    fs.saturated, fs.monounsaturated, fs.polyunsaturated,
    cs.starch, cs.fiber, cs.sugars, cs.sugar_alcohols,
    vs.vitamin_a, vs.vitamin_b1, vs.vitamin_b2, vs.vitamin_b3, vs.vitamin_b5,
    vs.vitamin_b6, vs.vitamin_b9, vs.vitamin_b12, vs.vitamin_c, vs.vitamin_d,
    vs.vitamin_e, vs.vitamin_k, vs.betaine, vs.choline,
    ms.calcium, ms.copper, ms.iron, ms.magnesium, ms.manganese, ms.phosphorus,
    ms.potassium, ms.selenium, ms.sodium, ms.zinc
FROM ingredients ing
INNER JOIN nutritional_info ni ON ing.id = ni.ingredient_id
INNER JOIN protein_sets ps ON ni.id = ps.nutrition_info_id
INNER JOIN fat_sets fs ON ni.id = fs.nutrition_info_id
INNER JOIN carbohydrate_sets cs ON ni.id = cs.nutrition_info_id
INNER JOIN vitamin_sets vs ON ni.id = vs.nutrition_info_id
INNER JOIN mineral_sets ms ON ni.id = ms.nutrition_info_id;";

/// The first such row of the ingredient whose identity is bound to `?1`.
pub const SELECT_INGREDIENT_BY_ID: &'static str = "SELECT
    ing.id, ing.name, ing.brand,
    ni.default_amount, ni.default_unit, ni.kilocalories,
    ps.histidine, ps.isoleucine, ps.leucine, ps.lysine, ps.methionine,
    ps.phenylalanine, ps.threonine, ps.tryptophan, ps.valine, ps.alanine, ps.arginine,
    ps.asparagine, ps.aspartic_acid, ps.cysteine, ps.glutamic_acid, ps.glutamine,
    ps.glycine, ps.proline, ps.serine, ps.tyrosine,
    fs.saturated, fs.monounsaturated, fs.polyunsaturated,
    cs.starch, cs.fiber, cs.sugars, cs.sugar_alcohols,
    vs.vitamin_a, vs.vitamin_b1, vs.vitamin_b2, vs.vitamin_b3, vs.vitamin_b5,
    vs.vitamin_b6, vs.vitamin_b9, vs.vitamin_b12, vs.vitamin_c, vs.vitamin_d,
    vs.vitamin_e, vs.vitamin_k, vs.betaine, vs.choline,
    ms.calcium, ms.copper, ms.iron, ms.magnesium, ms.manganese, ms.phosphorus,
    ms.potassium, ms.selenium, ms.sodium, ms.zinc
FROM ingredients ing
INNER JOIN nutritional_info ni ON ing.id = ni.ingredient_id
INNER JOIN protein_sets ps ON ni.id = ps.nutrition_info_id
INNER JOIN fat_sets fs ON ni.id = fs.nutrition_info_id
INNER JOIN carbohydrate_sets cs ON ni.id = cs.nutrition_info_id
INNER JOIN vitamin_sets vs ON ni.id = vs.nutrition_info_id
INNER JOIN mineral_sets ms ON ni.id = ms.nutrition_info_id
WHERE ing.id = ?1
LIMIT 1;";

/// The categories of the ingredient whose identity is bound to `?1`.
pub const SELECT_INGREDIENT_CATEGORIES: &'static str = "SELECT c.id, c.name, c.icon_name, c.icon_color
FROM categories c
INNER JOIN ingredient_categories ic
    ON ic.category_id = c.id AND ic.ingredient_id = ?1;";

/// Makes the scratch table that carries the identities of new rows from
/// one statement to the next.
pub const CREATE_VARIABLES: &'static str = "CREATE TEMP TABLE IF NOT EXISTS _variables (var_name TEXT, value INTEGER);";

/// Stores the name and the brand.
pub const INSERT_INGREDIENT: &'static str = "INSERT INTO ingredients (name, brand) VALUES (?1, ?2);";

/// Notes the identity that the ingredient was given.
pub const KEEP_INGREDIENT_ID: &'static str = "INSERT INTO _variables (var_name, value)
VALUES ('ingredient_id', last_insert_rowid());";

/// Files the new ingredient under the category whose identity is bound to
/// `?1`.
pub const INSERT_INGREDIENT_CATEGORY: &'static str = "INSERT INTO ingredient_categories (ingredient_id, category_id)
VALUES (
    (SELECT value FROM _variables WHERE var_name = 'ingredient_id'
        ORDER BY rowid DESC LIMIT 1),
    ?1
);";

/// Stores the header of a serving of the new ingredient.
pub const INSERT_NUTRITIONAL_INFO: &'static str = "INSERT INTO nutritional_info (default_amount, default_unit, kilocalories, ingredient_id)
VALUES (
    ?1, ?2, ?3,
    (SELECT value FROM _variables WHERE var_name = 'ingredient_id'
        ORDER BY rowid DESC LIMIT 1)
);";

/// Notes the identity that the serving was given.
pub const KEEP_NUTRITIONAL_INFO_ID: &'static str = "INSERT INTO _variables (var_name, value)
VALUES ('nutritional_info_id', last_insert_rowid());";

/// Stores the amino acids of the new serving.
pub const INSERT_PROTEIN_SET: &'static str = "INSERT INTO protein_sets (
    nutrition_info_id,
    histidine, isoleucine, leucine, lysine, methionine, phenylalanine, threonine,
    tryptophan, valine, alanine, arginine, asparagine, aspartic_acid, cysteine,
    glutamic_acid, glutamine, glycine, proline, serine, tyrosine
)
VALUES (
    (SELECT value FROM _variables WHERE var_name = 'nutritional_info_id'
        ORDER BY rowid DESC LIMIT 1),
    ?1, ?2, ?3, ?4, ?5, ?6, ?7, ?8, ?9, ?10, ?11, ?12, ?13, ?14, ?15, ?16, ?17, ?18,
    ?19, ?20
);";

/// Stores the fats of the new serving.
pub const INSERT_FAT_SET: &'static str = "INSERT INTO fat_sets (
    nutrition_info_id,
    saturated, monounsaturated, polyunsaturated
)
VALUES (
    (SELECT value FROM _variables WHERE var_name = 'nutritional_info_id'
        ORDER BY rowid DESC LIMIT 1),
    ?1, ?2, ?3
);";

/// Stores the carbohydrates of the new serving.
pub const INSERT_CARBOHYDRATE_SET: &'static str = "INSERT INTO carbohydrate_sets (
    nutrition_info_id,
    starch, fiber, sugars, sugar_alcohols
)
VALUES (
    (SELECT value FROM _variables WHERE var_name = 'nutritional_info_id'
        ORDER BY rowid DESC LIMIT 1),
    ?1, ?2, ?3, ?4
);";

/// Stores the vitamins of the new serving.
pub const INSERT_VITAMIN_SET: &'static str = "INSERT INTO vitamin_sets (
    nutrition_info_id,
    vitamin_a, vitamin_b1, vitamin_b2, vitamin_b3, vitamin_b5, vitamin_b6, vitamin_b9,
    vitamin_b12, vitamin_c, vitamin_d, vitamin_e, vitamin_k, betaine, choline
)
VALUES (
    (SELECT value FROM _variables WHERE var_name = 'nutritional_info_id'
        ORDER BY rowid DESC LIMIT 1),
    ?1, ?2, ?3, ?4, ?5, ?6, ?7, ?8, ?9, ?10, ?11, ?12, ?13, ?14
);";

/// Stores the minerals of the new serving.
pub const INSERT_MINERAL_SET: &'static str = "INSERT INTO mineral_sets (
    nutrition_info_id,
    calcium, copper, iron, magnesium, manganese, phosphorus, potassium, selenium,
    sodium, zinc
)
VALUES (
    (SELECT value FROM _variables WHERE var_name = 'nutritional_info_id'
        ORDER BY rowid DESC LIMIT 1),
    ?1, ?2, ?3, ?4, ?5, ?6, ?7, ?8, ?9, ?10
);";

/// Removes the scratch table.
pub const DROP_VARIABLES: &'static str = "DROP TABLE IF EXISTS _variables;";

/// Deletes the ingredient whose identity is bound to `?1`; its servings,
/// their nutrient groups, its category links and its log entries go with it.
pub const DELETE_INGREDIENT: &'static str = "DELETE FROM ingredients WHERE id = ?1;";

/// The number of columns of an ingredient row: the identity, the name and
/// the brand, the header of the serving (amount, unit, kilocalories) and
/// its 51 nutrient amounts.
pub const INGREDIENT_COLUMNS: usize = 57;

/// The unit in column `column`: a code from 0 to 4.
pub open spec fn spec_unit_at(row: Seq<SqlData>, column: int) -> Result<Unit, DecodeError>
    recommends
        0 <= column < row.len(),
{
    match spec_uint_at(row, column) {
        Err(e) => Err(e),
        Ok(code) => match Unit::of_code(code) {
            Some(unit) => Ok(unit),
            None => Err(DecodeError::InvalidUnit { code }),
        },
    }
}

/// The serving whose header stands in columns 3 to 5 of an ingredient row
/// and whose nutrients stand in the columns after them.
pub open spec fn spec_read_nutritional_info(row: Seq<SqlData>) -> Result<
    NutritionalInfo,
    DecodeError,
>
    recommends
        row.len() == INGREDIENT_COLUMNS,
{
    match spec_amount_at(row, 3) {
        Err(e) => Err(e),
        Ok(default_amount) => match spec_unit_at(row, 4) {
            Err(e) => Err(e),
            Ok(default_unit) => match spec_amount_at(row, 5) {
                Err(e) => Err(e),
                Ok(kilocalories) => match spec_amounts_at(row, 6, INGREDIENT_COLUMNS as int) {
                    Err(e) => Err(e),
                    Ok(amounts) => Ok(
                        NutritionalInfo::spec_from_amounts(
                            default_amount,
                            default_unit,
                            kilocalories,
                            amounts,
                        ),
                    ),
                },
            },
        }
    }
}

/// The identity in the first column of an ingredient row.
pub open spec fn spec_read_ingredient_id(row: Seq<SqlData>) -> Result<u32, DecodeError> {
    if row.len() != INGREDIENT_COLUMNS {
        Err(DecodeError::ColumnCount { expected: INGREDIENT_COLUMNS, found: row.len() as usize })
    } else {
        spec_uint_at(row, 0)
    }
}

/// The ingredient that a row of 57 columns describes, with the one serving
/// of that row and the given categories. The columns are read from left to
/// right and the first that cannot be read decides the error.
pub open spec fn spec_read_ingredient(row: Seq<SqlData>, categories: Seq<CategoryView>) -> Result<
    IngredientView,
    DecodeError,
> {
    match spec_read_ingredient_id(row) {
        Err(e) => Err(e),
        Ok(id) => match spec_text_at(row, 1) {
            Err(e) => Err(e),
            Ok(name) => match spec_text_at(row, 2) {
                Err(e) => Err(e),
                Ok(brand) => match spec_read_nutritional_info(row) {
                    Err(e) => Err(e),
                    Ok(info) => Ok(
                        IngredientView {
                            id,
                            name,
                            brand,
                            categories,
                            nutritional_info: seq![info],
                        },
                    ),
                },
            },
        },
    }
}

/// The query for the categories of the ingredient of the given identity.
pub open spec fn spec_get_ingredient_categories(ingredient_id: u32) -> StatementView {
    StatementView {
        sql: SELECT_INGREDIENT_CATEGORIES@,
        params: seq![SqlData::Integer(ingredient_id as i64)],
    }
}

/// For each ingredient row the query for the categories of its
/// ingredient, or the error of the first row that has no identity.
pub open spec fn spec_category_queries(rows: Seq<Seq<SqlData>>) -> Result<
    Seq<StatementView>,
    DecodeError,
>
    decreases rows.len(),
{
    if rows.len() == 0 {
        Ok(Seq::empty())
    } else {
        match spec_category_queries(rows.drop_last()) {
            Err(e) => Err(e),
            Ok(queries) => match spec_read_ingredient_id(rows.last()) {
                Err(e) => Err(e),
                Ok(id) => Ok(queries.push(spec_get_ingredient_categories(id))),
            },
        }
    }
}

/// The ingredient of one row with the categories of the category rows
/// that were found for it: the categories are decoded first.
pub open spec fn spec_read_with_categories(row: Seq<SqlData>, found: Seq<Seq<SqlData>>) -> Result<
    IngredientView,
    DecodeError,
> {
    match spec_read_categories(found) {
        Err(e) => Err(e),
        Ok(categories) => spec_read_ingredient(row, categories),
    }
}

/// The ingredients of rows, each with the categories that were found for
/// it, in the order of the rows; or the error of the first row that
/// cannot be decoded. The category rows have to come in the number of the
/// ingredient rows.
pub open spec fn spec_read_ingredients(
    rows: Seq<Seq<SqlData>>,
    found: Seq<Seq<Seq<SqlData>>>,
) -> Result<Seq<IngredientView>, DecodeError> {
    if rows.len() != found.len() {
        Err(DecodeError::RowCount { expected: rows.len() as usize, found: found.len() as usize })
    } else {
        spec_read_each(rows, found)
    }
}

/// The ingredients of as many rows as there are category rows for.
pub open spec fn spec_read_each(rows: Seq<Seq<SqlData>>, found: Seq<Seq<Seq<SqlData>>>) -> Result<
    Seq<IngredientView>,
    DecodeError,
>
    recommends
        found.len() <= rows.len(),
    decreases found.len(),
{
    if found.len() == 0 {
        Ok(Seq::empty())
    } else {
        match spec_read_each(rows, found.drop_last()) {
            Err(e) => Err(e),
            Ok(ingredients) => match spec_read_with_categories(
                rows[found.len() - 1],
                found.last(),
            ) {
                Err(e) => Err(e),
                Ok(ingredient) => Ok(ingredients.push(ingredient)),
            },
        }
    }
}

/// The query for all ingredients. An ingredient without a serving, or a
/// serving without one of its five nutrient groups, is not among the rows.
pub fn get_ingredients() -> (query: Statement)
    ensures
        query@ == spec_plain(SELECT_INGREDIENTS@),
{
    plain(SELECT_INGREDIENTS)
}

/// The query for the ingredient of the given identity: no row or one.
pub fn get_ingredient_by_id(id: u32) -> (query: Statement)
    ensures
        query@ == (StatementView {
            sql: SELECT_INGREDIENT_BY_ID@,
            params: seq![SqlData::Integer(id as i64)],
        }),
{
    let params: Vec<SqlValue> = vec![SqlValue::Integer(id as i64)];
    assert(params.deep_view() =~= seq![SqlData::Integer(id as i64)]);
    statement(SELECT_INGREDIENT_BY_ID, params)
}

/// The query for the categories of the ingredient of the given identity.
/// Its rows are decoded as category rows.
pub fn get_ingredient_categories(ingredient_id: u32) -> (query: Statement)
    ensures
        query@ == spec_get_ingredient_categories(ingredient_id),
{
    let params: Vec<SqlValue> = vec![SqlValue::Integer(ingredient_id as i64)];
    assert(params.deep_view() =~= seq![SqlData::Integer(ingredient_id as i64)]);
    statement(SELECT_INGREDIENT_CATEGORIES, params)
}

/// The queries for the categories of the ingredients of rows, one for
/// each row in their order. What each query finds is handed, in the same
/// order, to [`read_ingredients`].
pub fn category_queries(rows: &Vec<Vec<SqlValue>>) -> (queries: Result<
    Vec<Statement>,
    DecodeError,
>)
    ensures
        match queries {
            Ok(q) => spec_category_queries(rows.deep_view()) == Ok::<
                Seq<StatementView>,
                DecodeError,
            >(q.deep_view()),
            Err(e) => spec_category_queries(rows.deep_view()) == Err::<
                Seq<StatementView>,
                DecodeError,
            >(e),
        },
{
    let mut queries: Vec<Statement> = Vec::new();
    let mut i: usize = 0;
    assert(queries.deep_view() =~= Seq::empty());
    while i < rows.len()
        invariant
            i <= rows.len(),
            spec_category_queries(rows.deep_view().subrange(0, i as int)) == Ok::<
                Seq<StatementView>,
                DecodeError,
            >(queries.deep_view()),
        decreases rows.len() - i,
    {
        let ghost before = queries.deep_view();
        let ghost next = rows.deep_view().subrange(0, i + 1);
        assert(next.drop_last() =~= rows.deep_view().subrange(0, i as int));
        assert(next.last() == rows[i as int].deep_view());
        match read_ingredient_id(&rows[i]) {
            Ok(id) => {
                queries.push(get_ingredient_categories(id));
                assert(queries.deep_view() =~= before.push(spec_get_ingredient_categories(id)));
            },
            Err(e) => {
                proof {
                    lemma_category_queries_error_stays(rows.deep_view(), i + 1);
                }
                return Err(e);
            },
        }
        i = i + 1;
    }
    assert(rows.deep_view().subrange(0, i as int) =~= rows.deep_view());
    Ok(queries)
}

/// Decodes the rows of an ingredient query, each with the category rows
/// that were found for it. The first row that cannot be decoded fails the
/// whole read, and so does a list of category rows of another length.
pub fn read_ingredients(rows: &Vec<Vec<SqlValue>>, found: &Vec<Vec<Vec<SqlValue>>>) -> (ingredients:
    Result<Vec<Ingredient>, DecodeError>)
    ensures
        match ingredients {
            Ok(v) => spec_read_ingredients(rows.deep_view(), found.deep_view()) == Ok::<
                Seq<IngredientView>,
                DecodeError,
            >(v.deep_view()),
            Err(e) => spec_read_ingredients(rows.deep_view(), found.deep_view()) == Err::<
                Seq<IngredientView>,
                DecodeError,
            >(e),
        },
{
    if rows.len() != found.len() {
        return Err(DecodeError::RowCount { expected: rows.len(), found: found.len() });
    }
    let mut ingredients: Vec<Ingredient> = Vec::new();
    let mut i: usize = 0;
    assert(ingredients.deep_view() =~= Seq::empty());
    while i < found.len()
        invariant
            i <= found.len() == rows.len(),
            spec_read_each(rows.deep_view(), found.deep_view().subrange(0, i as int)) == Ok::<
                Seq<IngredientView>,
                DecodeError,
            >(ingredients.deep_view()),
        decreases found.len() - i,
    {
        let ghost before = ingredients.deep_view();
        let ghost next = found.deep_view().subrange(0, i + 1);
        assert(next.drop_last() =~= found.deep_view().subrange(0, i as int));
        assert(next.last() == found[i as int].deep_view());
        assert(rows.deep_view()[i as int] == rows[i as int].deep_view());
        let categories = match read_categories(&found[i]) {
            Ok(categories) => categories,
            Err(e) => {
                proof {
                    lemma_read_each_error_stays(rows.deep_view(), found.deep_view(), i + 1);
                }
                return Err(e);
            },
        };
        match read_ingredient(&rows[i], categories) {
            Ok(ingredient) => {
                ingredients.push(ingredient);
                assert(ingredients.deep_view() =~= before.push(ingredient@));
            },
            Err(e) => {
                proof {
                    lemma_read_each_error_stays(rows.deep_view(), found.deep_view(), i + 1);
                }
                return Err(e);
            },
        }
        i = i + 1;
    }
    assert(found.deep_view().subrange(0, i as int) =~= found.deep_view());
    Ok(ingredients)
}

/// Once a row has no identity, asking for further rows gives the same
/// error.
proof fn lemma_category_queries_error_stays(rows: Seq<Seq<SqlData>>, n: int)
    requires
        0 <= n <= rows.len(),
        spec_category_queries(rows.subrange(0, n)) is Err,
    ensures
        spec_category_queries(rows) == spec_category_queries(rows.subrange(0, n)),
    decreases rows.len() - n,
{
    if n < rows.len() {
        assert(rows.drop_last().subrange(0, n) =~= rows.subrange(0, n));
        lemma_category_queries_error_stays(rows.drop_last(), n);
    } else {
        assert(rows.subrange(0, n) =~= rows);
    }
}

/// Once a row cannot be decoded, reading further rows gives the same
/// error.
proof fn lemma_read_each_error_stays(
    rows: Seq<Seq<SqlData>>,
    found: Seq<Seq<Seq<SqlData>>>,
    n: int,
)
    requires
        0 <= n <= found.len(),
        spec_read_each(rows, found.subrange(0, n)) is Err,
    ensures
        spec_read_each(rows, found) == spec_read_each(rows, found.subrange(0, n)),
    decreases found.len() - n,
{
    if n < found.len() {
        assert(found.drop_last().subrange(0, n) =~= found.subrange(0, n));
        lemma_read_each_error_stays(rows, found.drop_last(), n);
    } else {
        assert(found.subrange(0, n) =~= found);
    }
}

/// Reads the identity of an ingredient row, which the query for its
/// categories needs before the row is decoded.
pub fn read_ingredient_id(row: &Vec<SqlValue>) -> (id: Result<u32, DecodeError>)
    ensures
        id == spec_read_ingredient_id(row.deep_view()),
{
    if row.len() != INGREDIENT_COLUMNS {
        return Err(DecodeError::ColumnCount { expected: INGREDIENT_COLUMNS, found: row.len() });
    }
    uint_at(row, 0)
}

/// Reads the unit of a column: a stored code that names no unit is an
/// error, never a default.
fn unit_at(row: &Vec<SqlValue>, column: usize) -> (unit: Result<Unit, DecodeError>)
    requires
        column < row.len(),
    ensures
        unit == spec_unit_at(row.deep_view(), column as int),
{
    match uint_at(row, column) {
        Ok(code) => Unit::from_uint(code),
        Err(e) => Err(e),
    }
}

/// Reads the serving of an ingredient row.
fn read_nutritional_info(row: &Vec<SqlValue>) -> (info: Result<NutritionalInfo, DecodeError>)
    requires
        row.len() == INGREDIENT_COLUMNS,
    ensures
        info == spec_read_nutritional_info(row.deep_view()),
{
    let default_amount = match amount_at(row, 3) {
        Ok(amount) => amount,
        Err(e) => return Err(e),
    };
    let default_unit = match unit_at(row, 4) {
        Ok(unit) => unit,
        Err(e) => return Err(e),
    };
    let kilocalories = match amount_at(row, 5) {
        Ok(amount) => amount,
        Err(e) => return Err(e),
    };
    let amounts = match amounts_at(row, 6, INGREDIENT_COLUMNS) {
        Ok(amounts) => amounts,
        Err(e) => return Err(e),
    };
    proof {
        lemma_amounts_each(row.deep_view(), 6, INGREDIENT_COLUMNS as int);
    }
    Ok(NutritionalInfo::from_amounts(default_amount, default_unit, kilocalories, &amounts))
}

/// Decodes one row of an ingredient query into the ingredient with the
/// serving of that row and the categories that were read for it.
pub fn read_ingredient(row: &Vec<SqlValue>, categories: Vec<Category>) -> (ingredient: Result<
    Ingredient,
    DecodeError,
>)
    ensures
        match ingredient {
            Ok(i) => spec_read_ingredient(row.deep_view(), categories.deep_view()) == Ok::<
                IngredientView,
                DecodeError,
            >(i@),
            Err(e) => spec_read_ingredient(row.deep_view(), categories.deep_view()) == Err::<
                IngredientView,
                DecodeError,
            >(e),
        },
{
    let id = match read_ingredient_id(row) {
        Ok(id) => id,
        Err(e) => return Err(e),
    };
    let name = match text_at(row, 1) {
        Ok(name) => name,
        Err(e) => return Err(e),
    };
    let brand = match text_at(row, 2) {
        Ok(brand) => brand,
        Err(e) => return Err(e),
    };
    let info = match read_nutritional_info(row) {
        Ok(info) => info,
        Err(e) => return Err(e),
    };
    let nutritional_info: Vec<NutritionalInfo> = vec![info];
    assert(nutritional_info@ =~= seq![info]);
    Ok(Ingredient { id, name, brand, categories, nutritional_info })
}

/// The values bound to the header of a serving: its amount, the code of
/// its unit and its kilocalories.
pub open spec fn spec_header_params(info: NutritionalInfo) -> Seq<SqlData> {
    seq![
        SqlData::Real(info.default_amount as i64),
        SqlData::Integer(info.default_unit.code() as i64),
        SqlData::Real(info.kilocalories as i64),
    ]
}

/// The seven statements that store one serving of the ingredient that was
/// stored last: its header, the note of its identity, and its five
/// nutrient groups.
pub open spec fn spec_insert_nutritional_info(info: NutritionalInfo) -> Seq<StatementView> {
    let proteins = info.macronutrients.proteins;
    seq![
        StatementView { sql: INSERT_NUTRITIONAL_INFO@, params: spec_header_params(info) },
        spec_plain(KEEP_NUTRITIONAL_INFO_ID@),
        StatementView {
            sql: INSERT_PROTEIN_SET@,
            params: spec_reals(
                proteins.essential_amino_acids.spec_amounts()
                    + proteins.non_essential_amino_acids.spec_amounts(),
            ),
        },
        StatementView {
            sql: INSERT_FAT_SET@,
            params: spec_reals(info.macronutrients.fats.spec_amounts()),
        },
        StatementView {
            sql: INSERT_CARBOHYDRATE_SET@,
            params: spec_reals(info.macronutrients.carbohydrates.spec_amounts()),
        },
        StatementView {
            sql: INSERT_VITAMIN_SET@,
            params: spec_reals(info.micronutrients.vitamins.spec_amounts()),
        },
        StatementView {
            sql: INSERT_MINERAL_SET@,
            params: spec_reals(info.micronutrients.minerals.spec_amounts()),
        },
    ]
}

/// The statements that store servings one after the other.
pub open spec fn spec_insert_servings(servings: Seq<NutritionalInfo>) -> Seq<StatementView>
    decreases servings.len(),
{
    if servings.len() == 0 {
        Seq::empty()
    } else {
        spec_insert_servings(servings.drop_last()) + spec_insert_nutritional_info(
            servings.last(),
        )
    }
}

/// The statement that files the new ingredient under a category.
pub open spec fn spec_insert_link(category: CategoryView) -> StatementView {
    StatementView {
        sql: INSERT_INGREDIENT_CATEGORY@,
        params: seq![SqlData::Integer(category.id as i64)],
    }
}

/// The statements that store an ingredient: the scratch table, the
/// ingredient row and the note of its identity; a link for each of its
/// categories, in their order; seven statements for each of its servings,
/// in their order; and the removal of the scratch table.
pub open spec fn spec_insert_ingredient(ingredient: IngredientView) -> Seq<StatementView> {
    seq![
        spec_plain(CREATE_VARIABLES@),
        StatementView {
            sql: INSERT_INGREDIENT@,
            params: seq![SqlData::Text(ingredient.name), SqlData::Text(ingredient.brand)],
        },
        spec_plain(KEEP_INGREDIENT_ID@),
    ] + ingredient.categories.map_values(|c: CategoryView| spec_insert_link(c))
        + spec_insert_servings(ingredient.nutritional_info) + seq![spec_plain(DROP_VARIABLES@)]
}

/// The row that an ingredient query finds for a stored serving: the
/// identity that the store gave the ingredient, then the values that the
/// statements of the insert bound, in the order in which they bound them.
pub open spec fn spec_stored_row(ingredient: IngredientView, id: u32, serving: int) -> Seq<
    SqlData,
>
    recommends
        0 <= serving < ingredient.nutritional_info.len(),
{
    let statements = spec_insert_nutritional_info(ingredient.nutritional_info[serving]);
    seq![SqlData::Integer(id as i64)] + spec_insert_ingredient(ingredient)[1].params
        + statements[0].params + statements[2].params + statements[3].params
        + statements[4].params + statements[5].params + statements[6].params
}

/// Appends the seven statements that store one serving.
fn push_nutritional_info(plan: &mut Vec<Statement>, info: &NutritionalInfo)
    ensures
        final(plan).deep_view() == old(plan).deep_view() + spec_insert_nutritional_info(*info),
{
    let ghost before = plan.deep_view();
    let header: Vec<SqlValue> = vec![
        SqlValue::Real(info.default_amount as i64),
        SqlValue::Integer(info.default_unit.to_uint() as i64),
        SqlValue::Real(info.kilocalories as i64),
    ];
    assert(header.deep_view() =~= spec_header_params(*info));
    let mut amino_acids = info.macronutrients.proteins.essential_amino_acids.amounts();
    let mut non_essential = info.macronutrients.proteins.non_essential_amino_acids.amounts();
    amino_acids.append(&mut non_essential);
    plan.push(statement(INSERT_NUTRITIONAL_INFO, header));
    plan.push(plain(KEEP_NUTRITIONAL_INFO_ID));
    plan.push(statement(INSERT_PROTEIN_SET, reals(&amino_acids)));
    plan.push(statement(INSERT_FAT_SET, reals(&info.macronutrients.fats.amounts())));
    plan.push(
        statement(INSERT_CARBOHYDRATE_SET, reals(&info.macronutrients.carbohydrates.amounts())),
    );
    plan.push(statement(INSERT_VITAMIN_SET, reals(&info.micronutrients.vitamins.amounts())));
    plan.push(statement(INSERT_MINERAL_SET, reals(&info.micronutrients.minerals.amounts())));
    assert(plan.deep_view() =~= before + spec_insert_nutritional_info(*info));
}

/// The statements that store an ingredient with its category links and
/// all its servings. They are to run in this order inside one transaction,
/// so that either all of the ingredient is stored or none of it. The name
/// and the brand are bound, never written into a statement. The identity
/// of the given ingredient is not used: the store gives a new one.
pub fn insert_ingredient(ingredient: &Ingredient) -> (plan: Vec<Statement>)
    ensures
        plan.deep_view() == spec_insert_ingredient(ingredient@),
{
    let names: Vec<SqlValue> = vec![
        SqlValue::Text(ingredient.name.clone()),
        SqlValue::Text(ingredient.brand.clone()),
    ];
    assert(names.deep_view() =~= seq![
        SqlData::Text(ingredient.name@),
        SqlData::Text(ingredient.brand@),
    ]);
    let mut plan: Vec<Statement> = Vec::new();
    plan.push(plain(CREATE_VARIABLES));
    plan.push(statement(INSERT_INGREDIENT, names));
    plan.push(plain(KEEP_INGREDIENT_ID));
    let ghost head = plan.deep_view();
    assert(head =~= seq![
        spec_plain(CREATE_VARIABLES@),
        StatementView {
            sql: INSERT_INGREDIENT@,
            params: seq![SqlData::Text(ingredient.name@), SqlData::Text(ingredient.brand@)],
        },
        spec_plain(KEEP_INGREDIENT_ID@),
    ]);
    let ghost categories = ingredient.categories.deep_view();
    let mut i: usize = 0;
    while i < ingredient.categories.len()
        invariant
            i <= ingredient.categories.len(),
            categories == ingredient.categories.deep_view(),
            plan.deep_view() == head + categories.subrange(0, i as int).map_values(
                |c: CategoryView| spec_insert_link(c),
            ),
        decreases ingredient.categories.len() - i,
    {
        let ghost before = plan.deep_view();
        let link: Vec<SqlValue> = vec![SqlValue::Integer(ingredient.categories[i].id as i64)];
        assert(link.deep_view() =~= seq![SqlData::Integer(ingredient.categories[i as int].id as i64)]);
        plan.push(statement(INSERT_INGREDIENT_CATEGORY, link));
        assert(plan.deep_view() =~= before.push(spec_insert_link(categories[i as int])));
        assert(plan.deep_view() =~= head + categories.subrange(0, i + 1).map_values(
            |c: CategoryView| spec_insert_link(c),
        ));
        i = i + 1;
    }
    assert(categories.subrange(0, i as int) =~= categories);
    let ghost linked = plan.deep_view();
    let ghost servings = ingredient.nutritional_info@;
    let mut j: usize = 0;
    while j < ingredient.nutritional_info.len()
        invariant
            j <= ingredient.nutritional_info.len(),
            servings == ingredient.nutritional_info@,
            plan.deep_view() == linked + spec_insert_servings(servings.subrange(0, j as int)),
        decreases ingredient.nutritional_info.len() - j,
    {
        assert(servings.subrange(0, j + 1).drop_last() =~= servings.subrange(0, j as int));
        push_nutritional_info(&mut plan, &ingredient.nutritional_info[j]);
        j = j + 1;
    }
    assert(servings.subrange(0, j as int) =~= servings);
    plan.push(plain(DROP_VARIABLES));
    assert(plan.deep_view() =~= spec_insert_ingredient(ingredient@));
    plan
}

/// The statement that deletes an ingredient. With it the store deletes
/// what belongs to the ingredient; the statement reports no or one row.
pub fn delete_ingredient(ingredient: &Ingredient) -> (deletion: Statement)
    ensures
        deletion@ == spec_delete_ingredient(ingredient@),
{
    let params: Vec<SqlValue> = vec![SqlValue::Integer(ingredient.id as i64)];
    assert(params.deep_view() =~= seq![SqlData::Integer(ingredient.id as i64)]);
    statement(DELETE_INGREDIENT, params)
}

/// The statement that deletes an ingredient by its identity.
pub open spec fn spec_delete_ingredient(ingredient: IngredientView) -> StatementView {
    StatementView { sql: DELETE_INGREDIENT@, params: seq![SqlData::Integer(ingredient.id as i64)] }
}

/// The statements that delete the given ingredients, one statement for
/// each in their order. They are to run inside one transaction, so that a
/// failure leaves every ingredient in place.
pub fn delete_ingredients(ingredients: &[Ingredient]) -> (deletions: Vec<Statement>)
    ensures
        deletions.deep_view() == ingredients.deep_view().map_values(
            |i: IngredientView| spec_delete_ingredient(i),
        ),
{
    let mut deletions: Vec<Statement> = Vec::new();
    let mut i: usize = 0;
    while i < ingredients.len()
        invariant
            i <= ingredients.len(),
            deletions.len() == i,
            forall|k: int|
                0 <= k < i ==> (#[trigger] deletions[k])@ == spec_delete_ingredient(
                    ingredients[k]@,
                ),
        decreases ingredients.len() - i,
    {
        deletions.push(delete_ingredient(&ingredients[i]));
        i = i + 1;
    }
    assert(deletions.deep_view() =~= ingredients.deep_view().map_values(
        |i: IngredientView| spec_delete_ingredient(i),
    ));
    deletions
}

/// Servings are stored with seven statements each.
proof fn lemma_servings_len(servings: Seq<NutritionalInfo>)
    ensures
        spec_insert_servings(servings).len() == 7 * servings.len(),
    decreases servings.len(),
{
    if servings.len() > 0 {
        lemma_servings_len(servings.drop_last());
    }
}

/// The statements of servings stand seven by seven, those of each serving
/// together.
proof fn lemma_servings_shape(servings: Seq<NutritionalInfo>, serving: int)
    requires
        0 <= serving < servings.len(),
    ensures
        spec_insert_servings(servings).subrange(7 * serving, 7 * serving + 7)
            == spec_insert_nutritional_info(servings[serving]),
    decreases servings.len(),
{
    let before = servings.drop_last();
    let all = spec_insert_servings(servings);
    lemma_servings_len(before);
    if serving < before.len() {
        lemma_servings_shape(before, serving);
        assert(all.subrange(7 * serving, 7 * serving + 7) =~= spec_insert_servings(
            before,
        ).subrange(7 * serving, 7 * serving + 7));
    } else {
        assert(all.subrange(7 * serving, 7 * serving + 7) =~= spec_insert_nutritional_info(
            servings.last(),
        ));
    }
}

/// The plan of an insert begins with the scratch table, the ingredient
/// row with the name and the brand bound to it, and the note of the new
/// identity; it ends with the removal of the scratch table; between them
/// stand one link for each category and seven statements for each serving.
pub proof fn lemma_insert_plan_frame(ingredient: IngredientView)
    ensures
        spec_insert_ingredient(ingredient).len() == 4 + ingredient.categories.len() + 7
            * ingredient.nutritional_info.len(),
        spec_insert_ingredient(ingredient)[0] == spec_plain(CREATE_VARIABLES@),
        spec_insert_ingredient(ingredient)[1] == (StatementView {
            sql: INSERT_INGREDIENT@,
            params: seq![SqlData::Text(ingredient.name), SqlData::Text(ingredient.brand)],
        }),
        spec_insert_ingredient(ingredient)[2] == spec_plain(KEEP_INGREDIENT_ID@),
        spec_insert_ingredient(ingredient).last() == spec_plain(DROP_VARIABLES@),
{
    lemma_servings_len(ingredient.nutritional_info);
}

/// The links of a new ingredient stand after the note of its identity, in
/// the order of its categories.
pub proof fn lemma_insert_plan_link(ingredient: IngredientView, category: int)
    requires
        0 <= category < ingredient.categories.len(),
    ensures
        spec_insert_ingredient(ingredient)[3 + category] == spec_insert_link(
            ingredient.categories[category],
        ),
{
    lemma_servings_len(ingredient.nutritional_info);
}

/// The seven statements of a serving stand together, after the links and
/// the statements of the servings before it: a serving is stored with all
/// five of its nutrient groups.
pub proof fn lemma_insert_plan_serving(ingredient: IngredientView, serving: int)
    requires
        0 <= serving < ingredient.nutritional_info.len(),
    ensures
        spec_insert_ingredient(ingredient).subrange(
            3 + ingredient.categories.len() + 7 * serving,
            3 + ingredient.categories.len() + 7 * serving + 7,
        ) == spec_insert_nutritional_info(ingredient.nutritional_info[serving]),
{
    let plan = spec_insert_ingredient(ingredient);
    let at = 3 + ingredient.categories.len() + 7 * serving;
    lemma_servings_len(ingredient.nutritional_info);
    lemma_servings_shape(ingredient.nutritional_info, serving);
    assert(plan.subrange(at, at + 7) =~= spec_insert_servings(
        ingredient.nutritional_info,
    ).subrange(7 * serving, 7 * serving + 7));
}

/// Reading the amounts of columns that hold them as `REAL` values gives
/// the amounts back.
proof fn lemma_read_reals(row: Seq<SqlData>, from: int, to: int, amounts: Seq<u32>)
    requires
        0 <= from <= to <= row.len(),
        amounts.len() == to - from,
        row.subrange(from, to) == spec_reals(amounts),
    ensures
        spec_amounts_at(row, from, to) == Ok::<Seq<u32>, DecodeError>(amounts),
    decreases to - from,
{
    if from < to {
        assert(row.subrange(from, to - 1) =~= spec_reals(amounts.drop_last())) by {
            assert forall|k: int| 0 <= k < to - 1 - from implies row.subrange(from, to - 1)[k]
                == spec_reals(amounts.drop_last())[k] by {
                assert(row.subrange(from, to)[k] == spec_reals(amounts)[k]);
            }
        }
        lemma_read_reals(row, from, to - 1, amounts.drop_last());
        assert(row[to - 1] == row.subrange(from, to)[to - 1 - from]);
        assert(spec_reals(amounts)[to - 1 - from] == SqlData::Real(amounts.last() as i64));
        assert(amounts.drop_last().push(amounts.last()) =~= amounts);
    } else {
        assert(amounts =~= Seq::empty());
    }
}

/// What the statements of an insert bind is what the decoder reads: from
/// the row of a stored serving, `read_ingredient` gives the ingredient
/// under the identity of the row, with its name and brand, the categories
/// it is handed and that serving, each nutrient with the amount that was
/// stored.
pub proof fn lemma_insert_then_read(
    ingredient: IngredientView,
    id: u32,
    serving: int,
    categories: Seq<CategoryView>,
)
    requires
        0 <= serving < ingredient.nutritional_info.len(),
    ensures
        spec_read_ingredient(spec_stored_row(ingredient, id, serving), categories) == Ok::<
            IngredientView,
            DecodeError,
        >(
            IngredientView {
                id,
                name: ingredient.name,
                brand: ingredient.brand,
                categories,
                nutritional_info: seq![ingredient.nutritional_info[serving]],
            },
        ),
{
    let info = ingredient.nutritional_info[serving];
    let row = spec_stored_row(ingredient, id, serving);
    let amounts = info.spec_nutrient_amounts();
    NutritionalInfo::lemma_amounts_round_trip(info);
    Unit::lemma_code_round_trip(info.default_unit, 0);
    assert(row.len() == INGREDIENT_COLUMNS);
    assert(row.subrange(6, INGREDIENT_COLUMNS as int) =~= spec_reals(amounts));
    lemma_read_reals(row, 6, INGREDIENT_COLUMNS as int, amounts);
    assert(row[0] == SqlData::Integer(id as i64));
    assert(row[1] == SqlData::Text(ingredient.name));
    assert(row[2] == SqlData::Text(ingredient.brand));
    assert(row[3] == SqlData::Real(info.default_amount as i64));
    assert(row[4] == SqlData::Integer(info.default_unit.code() as i64));
    assert(row[5] == SqlData::Real(info.kilocalories as i64));
}

} // verus!
