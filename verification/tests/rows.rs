use sophross::color::Color;
use sophross::database::categories::{
    delete_categories, delete_category, get_categories, insert_category, read_categories,
    read_category, DELETE_CATEGORY, INSERT_CATEGORY, SELECT_CATEGORIES,
};
use sophross::database::ingredients::{
    category_queries, delete_ingredient, delete_ingredients, get_ingredient_by_id,
    get_ingredient_categories, get_ingredients, insert_ingredient, read_ingredient,
    read_ingredient_id, read_ingredients, DELETE_INGREDIENT,
    INSERT_INGREDIENT, INSERT_INGREDIENT_CATEGORY, INSERT_NUTRITIONAL_INFO,
    SELECT_INGREDIENTS, SELECT_INGREDIENT_BY_ID, SELECT_INGREDIENT_CATEGORIES,
};
use sophross::database::logs::{
    get_log_entries, insert_log_entry, read_log_row, read_log_rows, resolve_log_entries,
    resolve_log_entry, LogRow, INSERT_LOG_ENTRY, SELECT_LOG_ENTRIES,
};
use sophross::database::schema::{setup_tables, start_connection, tables, Table};
use sophross::database::total_row_count;
use sophross::date::Date;
use sophross::error::DecodeError;
use sophross::ingredients::{
    Carbohydrates, Category, EssentialAminoAcids, Fats, Ingredient, LogEntry, Macronutrients,
    Micronutrients, Minerals, NonEssentialAminoAcids, NutritionalInfo, Proteins, Vitamins,
};
use sophross::sql::SqlValue;
use sophross::units::Unit;

fn text(s: &str) -> SqlValue {
    SqlValue::Text(s.to_string())
}

fn category(id: u32, name: &str) -> Category {
    Category {
        id,
        name: name.to_string(),
        icon_name: "apple".to_string(),
        icon_color: Color { r: 1, g: 2, b: 3, a: 255 },
    }
}

/// A serving in which every nutrient has another amount: the amounts are
/// 1001, 1002, ... in the order of the columns.
fn numbered_info() -> NutritionalInfo {
    NutritionalInfo {
        default_amount: 100_000,
        default_unit: Unit::Tablespoons,
        kilocalories: 250_500,
        macronutrients: Macronutrients {
            proteins: Proteins {
                essential_amino_acids: EssentialAminoAcids {
                    histidine: 1001,
                    isoleucine: 1002,
                    leucine: 1003,
                    lysine: 1004,
                    methionine: 1005,
                    phenylalanine: 1006,
                    threonine: 1007,
                    tryptophan: 1008,
                    valine: 1009,
                },
                non_essential_amino_acids: NonEssentialAminoAcids {
                    alanine: 1010,
                    arginine: 1011,
                    asparagine: 1012,
                    aspartic_acid: 1013,
                    cysteine: 1014,
                    glutamic_acid: 1015,
                    glutamine: 1016,
                    glycine: 1017,
                    proline: 1018,
                    serine: 1019,
                    tyrosine: 1020,
                },
            },
            fats: Fats { saturated: 1021, monounsaturated: 1022, polyunsaturated: 1023 },
            carbohydrates: Carbohydrates {
                starch: 1024,
                fiber: 1025,
                sugars: 1026,
                sugar_alcohols: 1027,
            },
        },
        micronutrients: Micronutrients {
            vitamins: Vitamins {
                vitamin_a: 1028,
                vitamin_b1: 1029,
                vitamin_b2: 1030,
                vitamin_b3: 1031,
                vitamin_b5: 1032,
                vitamin_b6: 1033,
                vitamin_b9: 1034,
                vitamin_b12: 1035,
                vitamin_c: 1036,
                vitamin_d: 1037,
                vitamin_e: 1038,
                vitamin_k: 1039,
                betaine: 1040,
                choline: 1041,
            },
            minerals: Minerals {
                calcium: 1042,
                copper: 1043,
                iron: 1044,
                magnesium: 1045,
                manganese: 1046,
                phosphorus: 1047,
                potassium: 1048,
                selenium: 1049,
                sodium: 1050,
                zinc: 1051,
            },
        },
    }
}

fn ingredient_row() -> Vec<SqlValue> {
    let mut row = vec![
        SqlValue::Integer(12),
        text("Oats"),
        text("Mill & Co"),
        SqlValue::Real(100_000),
        SqlValue::Integer(2),
        SqlValue::Real(250_500),
    ];
    for k in 1..=51 {
        row.push(SqlValue::Real(1000 + k));
    }
    row
}

fn oats() -> Ingredient {
    Ingredient {
        id: 12,
        name: "Oats".to_string(),
        brand: "Mill & Co".to_string(),
        categories: vec![category(3, "Grain"), category(8, "Breakfast")],
        nutritional_info: vec![numbered_info()],
    }
}

#[test]
fn groups_list_their_amounts_in_the_order_of_the_columns() {
    let info = numbered_info();
    let proteins = info.macronutrients.proteins;
    assert_eq!(proteins.essential_amino_acids.amounts(), (1001..=1009).collect::<Vec<u32>>());
    assert_eq!(proteins.non_essential_amino_acids.amounts(), (1010..=1020).collect::<Vec<u32>>());
    assert_eq!(info.macronutrients.fats.amounts(), vec![1021, 1022, 1023]);
    assert_eq!(info.macronutrients.carbohydrates.amounts(), vec![1024, 1025, 1026, 1027]);
    assert_eq!(info.micronutrients.vitamins.amounts(), (1028..=1041).collect::<Vec<u32>>());
    assert_eq!(info.micronutrients.minerals.amounts(), (1042..=1051).collect::<Vec<u32>>());
}

#[test]
fn category_row_is_decoded_field_by_field() {
    let row = vec![SqlValue::Integer(7), text("Fruit"), text("apple"), text("#ff8000ff")];
    assert_eq!(
        read_category(&row),
        Ok(Category {
            id: 7,
            name: "Fruit".to_string(),
            icon_name: "apple".to_string(),
            icon_color: Color { r: 255, g: 128, b: 0, a: 255 },
        })
    );
}

#[test]
fn malformed_color_fails_the_category() {
    let row = vec![SqlValue::Integer(7), text("Fruit"), text("apple"), text("orange")];
    assert_eq!(read_category(&row), Err(DecodeError::InvalidColor { column: 3 }));
}

#[test]
fn category_row_errors_name_the_first_bad_column() {
    let short = vec![SqlValue::Integer(7), text("Fruit"), text("apple")];
    assert_eq!(read_category(&short), Err(DecodeError::ColumnCount { expected: 4, found: 3 }));
    let no_id = vec![SqlValue::Null, SqlValue::Null, text("apple"), text("#fff")];
    assert_eq!(read_category(&no_id), Err(DecodeError::ColumnType { column: 0 }));
    let negative = vec![SqlValue::Integer(-1), text("Fruit"), text("apple"), text("#fff")];
    assert_eq!(read_category(&negative), Err(DecodeError::OutOfRange { column: 0 }));
    let large = vec![SqlValue::Integer(1 << 32), text("Fruit"), text("apple"), text("#fff")];
    assert_eq!(read_category(&large), Err(DecodeError::OutOfRange { column: 0 }));
    let blob = vec![SqlValue::Integer(1), SqlValue::Blob(vec![1]), text("apple"), text("#fff")];
    assert_eq!(read_category(&blob), Err(DecodeError::ColumnType { column: 1 }));
    let icon = vec![SqlValue::Integer(1), text("Fruit"), SqlValue::Real(1), text("bad")];
    assert_eq!(read_category(&icon), Err(DecodeError::ColumnType { column: 2 }));
    let largest = vec![SqlValue::Integer(0xffff_ffff), text(""), text(""), text("#000f")];
    assert_eq!(read_category(&largest).map(|c| c.id), Ok(u32::MAX));
}

#[test]
fn one_bad_category_row_fails_the_whole_read() {
    let good = vec![SqlValue::Integer(1), text("A"), text("bean"), text("#fff")];
    let bad = vec![SqlValue::Integer(2), text("B"), text("bean"), text("#ffg")];
    let later = vec![SqlValue::Integer(3), text("C")];
    assert_eq!(
        read_categories(&vec![good.clone(), bad, later]),
        Err(DecodeError::InvalidColor { column: 3 })
    );
    let all = read_categories(&vec![good.clone(), good]).unwrap();
    assert_eq!(all.len(), 2);
    assert_eq!(all[1].name, "A");
    assert_eq!(read_categories(&vec![]), Ok(vec![]));
}

#[test]
fn category_statements_bind_every_value() {
    let c = Category {
        id: 44,
        name: "Robert'); DROP TABLE categories;--".to_string(),
        icon_name: "candy".to_string(),
        icon_color: Color { r: 16, g: 32, b: 48, a: 64 },
    };
    let insertion = insert_category(&c);
    assert_eq!(insertion.sql, INSERT_CATEGORY);
    assert_eq!(
        insertion.params,
        vec![text("Robert'); DROP TABLE categories;--"), text("candy"), text("#10203040")]
    );
    let query = get_categories();
    assert_eq!(query.sql, SELECT_CATEGORIES);
    assert!(query.params.is_empty());
    let deletion = delete_category(&c);
    assert_eq!(deletion.sql, DELETE_CATEGORY);
    assert_eq!(deletion.params, vec![SqlValue::Integer(44)]);
    let batch = delete_categories(&[category(1, "a"), category(9, "b"), category(4, "c")]);
    assert_eq!(batch.len(), 3);
    assert_eq!(batch[0].params, vec![SqlValue::Integer(1)]);
    assert_eq!(batch[1].params, vec![SqlValue::Integer(9)]);
    assert_eq!(batch[2].params, vec![SqlValue::Integer(4)]);
    assert!(batch.iter().all(|d| d.sql == DELETE_CATEGORY));
    assert!(delete_categories(&[]).is_empty());
}

#[test]
fn ingredient_row_is_decoded_field_by_field() {
    let categories = vec![category(3, "Grain"), category(8, "Breakfast")];
    assert_eq!(read_ingredient(&ingredient_row(), categories), Ok(oats()));
    assert_eq!(read_ingredient_id(&ingredient_row()), Ok(12));
}

#[test]
fn whole_numbers_are_read_as_amounts() {
    let mut row = ingredient_row();
    row[3] = SqlValue::Integer(2);
    row[6] = SqlValue::Integer(4_294_967);
    let read = read_ingredient(&row, vec![]).unwrap();
    assert_eq!(read.nutritional_info[0].default_amount, 2000);
    assert_eq!(
        read.nutritional_info[0].macronutrients.proteins.essential_amino_acids.histidine,
        4_294_967_000
    );
    row[6] = SqlValue::Integer(4_294_968);
    assert_eq!(read_ingredient(&row, vec![]), Err(DecodeError::OutOfRange { column: 6 }));
}

#[test]
fn unknown_unit_code_fails_the_ingredient() {
    let mut row = ingredient_row();
    row[4] = SqlValue::Integer(99);
    assert_eq!(read_ingredient(&row, vec![]), Err(DecodeError::InvalidUnit { code: 99 }));
    row[4] = SqlValue::Integer(-1);
    assert_eq!(read_ingredient(&row, vec![]), Err(DecodeError::OutOfRange { column: 4 }));
    row[4] = SqlValue::Real(2000);
    assert_eq!(read_ingredient(&row, vec![]), Err(DecodeError::ColumnType { column: 4 }));
    row[4] = SqlValue::Integer(4);
    assert_eq!(
        read_ingredient(&row, vec![]).map(|i| i.nutritional_info[0].default_unit),
        Ok(Unit::Cups)
    );
}

#[test]
fn ingredient_row_errors_name_the_first_bad_column() {
    let mut short = ingredient_row();
    short.pop();
    assert_eq!(
        read_ingredient(&short, vec![]),
        Err(DecodeError::ColumnCount { expected: 57, found: 56 })
    );
    assert_eq!(
        read_ingredient_id(&short),
        Err(DecodeError::ColumnCount { expected: 57, found: 56 })
    );
    let mut row = ingredient_row();
    row[56] = SqlValue::Null;
    assert_eq!(read_ingredient(&row, vec![]), Err(DecodeError::ColumnType { column: 56 }));
    row[30] = SqlValue::Real(-1);
    assert_eq!(read_ingredient(&row, vec![]), Err(DecodeError::OutOfRange { column: 30 }));
    row[5] = SqlValue::Real(1 << 32);
    assert_eq!(read_ingredient(&row, vec![]), Err(DecodeError::OutOfRange { column: 5 }));
    row[3] = text("1.0");
    assert_eq!(read_ingredient(&row, vec![]), Err(DecodeError::ColumnType { column: 3 }));
    row[2] = SqlValue::Null;
    assert_eq!(read_ingredient(&row, vec![]), Err(DecodeError::ColumnType { column: 2 }));
    row[1] = SqlValue::Integer(1);
    assert_eq!(read_ingredient(&row, vec![]), Err(DecodeError::ColumnType { column: 1 }));
    row[0] = SqlValue::Integer(-5);
    assert_eq!(read_ingredient(&row, vec![]), Err(DecodeError::OutOfRange { column: 0 }));
    assert_eq!(read_ingredient_id(&row), Err(DecodeError::OutOfRange { column: 0 }));
}

#[test]
fn insert_plan_has_the_statements_in_order() {
    let plan = insert_ingredient(&oats());
    assert_eq!(plan.len(), 3 + 2 + 7 + 1);
    assert_eq!(plan[1].sql, INSERT_INGREDIENT);
    assert_eq!(plan[1].params, vec![text("Oats"), text("Mill & Co")]);
    assert_eq!(plan[3].sql, INSERT_INGREDIENT_CATEGORY);
    assert_eq!(plan[3].params, vec![SqlValue::Integer(3)]);
    assert_eq!(plan[4].params, vec![SqlValue::Integer(8)]);
    assert_eq!(plan[5].sql, INSERT_NUTRITIONAL_INFO);
    assert_eq!(
        plan[5].params,
        vec![SqlValue::Real(100_000), SqlValue::Integer(2), SqlValue::Real(250_500)]
    );
    assert!(plan[6].params.is_empty());
    let sizes: Vec<usize> = plan[7..12].iter().map(|s| s.params.len()).collect();
    assert_eq!(sizes, vec![20, 3, 4, 14, 10]);
    let bound: Vec<SqlValue> = plan[7..12].iter().flat_map(|s| s.params.clone()).collect();
    let expected: Vec<SqlValue> = (1..=51).map(|k| SqlValue::Real(1000 + k)).collect();
    assert_eq!(bound, expected);
    for statement in &plan {
        assert!(!statement.sql.contains("Oats"));
        assert!(!statement.sql.contains("Mill"));
    }
}

#[test]
fn insert_plan_reads_back_as_the_ingredient() {
    let plan = insert_ingredient(&oats());
    let mut row = vec![SqlValue::Integer(12)];
    row.extend(plan[1].params.clone());
    row.extend(plan[5].params.clone());
    for statement in &plan[7..12] {
        row.extend(statement.params.clone());
    }
    assert_eq!(read_ingredient(&row, oats().categories), Ok(oats()));
}

#[test]
fn insert_plan_of_a_bare_ingredient_is_four_statements() {
    let bare = Ingredient {
        id: 0,
        name: String::new(),
        brand: String::new(),
        categories: vec![],
        nutritional_info: vec![],
    };
    let plan = insert_ingredient(&bare);
    assert_eq!(plan.len(), 4);
    let two = Ingredient { nutritional_info: vec![numbered_info(), numbered_info()], ..bare };
    assert_eq!(insert_ingredient(&two).len(), 4 + 14);
}

#[test]
fn ingredient_queries_and_deletions() {
    assert_eq!(get_ingredients().sql, SELECT_INGREDIENTS);
    assert!(get_ingredients().params.is_empty());
    let by_id = get_ingredient_by_id(77);
    assert_eq!(by_id.sql, SELECT_INGREDIENT_BY_ID);
    assert_eq!(by_id.params, vec![SqlValue::Integer(77)]);
    let categories = get_ingredient_categories(u32::MAX);
    assert_eq!(categories.sql, SELECT_INGREDIENT_CATEGORIES);
    assert_eq!(categories.params, vec![SqlValue::Integer(4_294_967_295)]);
    let deletion = delete_ingredient(&oats());
    assert_eq!(deletion.sql, DELETE_INGREDIENT);
    assert_eq!(deletion.params, vec![SqlValue::Integer(12)]);
    let mut other = oats();
    other.id = 5;
    let batch = delete_ingredients(&[other, oats()]);
    assert_eq!(batch.len(), 2);
    assert_eq!(batch[0].params, vec![SqlValue::Integer(5)]);
    assert_eq!(batch[1].params, vec![SqlValue::Integer(12)]);
}

#[test]
fn every_ingredient_row_gets_its_category_query() {
    let mut second = ingredient_row();
    second[0] = SqlValue::Integer(40);
    let queries = category_queries(&vec![ingredient_row(), second.clone()]).unwrap();
    assert_eq!(queries, vec![get_ingredient_categories(12), get_ingredient_categories(40)]);
    assert_eq!(category_queries(&vec![]), Ok(vec![]));
    let mut bad = ingredient_row();
    bad[0] = SqlValue::Null;
    second.pop();
    assert_eq!(
        category_queries(&vec![ingredient_row(), bad, second]),
        Err(DecodeError::ColumnType { column: 0 })
    );
}

#[test]
fn ingredient_rows_are_read_with_their_categories() {
    let fruit = vec![SqlValue::Integer(3), text("Grain"), text("apple"), text("#010203ff")];
    let breakfast = vec![SqlValue::Integer(8), text("Breakfast"), text("apple"), text("#010203")];
    let mut second = ingredient_row();
    second[0] = SqlValue::Integer(13);
    second[1] = text("Rye");
    let rows = vec![ingredient_row(), second];
    let found = vec![vec![fruit.clone(), breakfast], vec![]];
    let read = read_ingredients(&rows, &found).unwrap();
    assert_eq!(read.len(), 2);
    assert_eq!(read[0], oats());
    assert_eq!(read[1], Ingredient { id: 13, name: "Rye".to_string(), categories: vec![], ..oats() });
    assert_eq!(read_ingredients(&vec![], &vec![]), Ok(vec![]));
    assert_eq!(
        read_ingredients(&rows, &vec![vec![]]),
        Err(DecodeError::RowCount { expected: 2, found: 1 })
    );
}

#[test]
fn first_undecodable_ingredient_row_fails_the_read() {
    let bad_color = vec![SqlValue::Integer(3), text("Grain"), text("apple"), text("blue")];
    let mut bad_unit = ingredient_row();
    bad_unit[4] = SqlValue::Integer(7);
    let mut short = ingredient_row();
    short.truncate(10);
    assert_eq!(
        read_ingredients(&vec![ingredient_row(), bad_unit.clone(), short.clone()], &vec![vec![]; 3]),
        Err(DecodeError::InvalidUnit { code: 7 })
    );
    assert_eq!(
        read_ingredients(&vec![bad_unit.clone(), short.clone()], &vec![vec![bad_color.clone()], vec![]]),
        Err(DecodeError::InvalidColor { column: 3 })
    );
    assert_eq!(
        read_ingredients(&vec![short, bad_unit], &vec![vec![], vec![bad_color]]),
        Err(DecodeError::ColumnCount { expected: 57, found: 10 })
    );
}

#[test]
fn log_statements_bind_the_iso_date() {
    let date = Date::from_ymd(2024, 2, 29).unwrap();
    let entry = LogEntry { id: 0, ingredient: oats(), fraction: 1500 };
    let insertion = insert_log_entry(&date, &entry);
    assert_eq!(insertion.sql, INSERT_LOG_ENTRY);
    assert_eq!(
        insertion.params,
        vec![text("2024-02-29"), SqlValue::Integer(12), SqlValue::Real(1500)]
    );
    let query = get_log_entries(&date);
    assert_eq!(query.sql, SELECT_LOG_ENTRIES);
    assert_eq!(query.params, vec![text("2024-02-29")]);
}

#[test]
fn log_row_is_decoded_without_its_date() {
    let row = vec![SqlValue::Integer(4), text("2024-02-29"), SqlValue::Integer(12), SqlValue::Real(500)];
    assert_eq!(read_log_row(&row), Ok(LogRow { id: 4, ingredient_id: 12, fraction: 500 }));
    let odd_date = vec![SqlValue::Integer(4), SqlValue::Null, SqlValue::Integer(12), SqlValue::Real(500)];
    assert_eq!(read_log_row(&odd_date), Ok(LogRow { id: 4, ingredient_id: 12, fraction: 500 }));
    let no_ingredient = vec![SqlValue::Integer(4), text("x"), SqlValue::Null, SqlValue::Real(500)];
    assert_eq!(read_log_row(&no_ingredient), Err(DecodeError::ColumnType { column: 2 }));
    let negative = vec![SqlValue::Integer(4), text("x"), SqlValue::Integer(1), SqlValue::Real(-500)];
    assert_eq!(read_log_row(&negative), Err(DecodeError::OutOfRange { column: 3 }));
    assert_eq!(read_log_row(&vec![]), Err(DecodeError::ColumnCount { expected: 4, found: 0 }));
    assert_eq!(
        read_log_rows(&vec![row.clone(), no_ingredient, negative]),
        Err(DecodeError::ColumnType { column: 2 })
    );
    assert_eq!(
        read_log_rows(&vec![row.clone(), row]),
        Ok(vec![LogRow { id: 4, ingredient_id: 12, fraction: 500 }; 2])
    );
}

#[test]
fn orphaned_log_entries_are_skipped() {
    let first = LogRow { id: 1, ingredient_id: 12, fraction: 1000 };
    let orphan = LogRow { id: 2, ingredient_id: 99, fraction: 2000 };
    let wrong = LogRow { id: 3, ingredient_id: 98, fraction: 2500 };
    let last = LogRow { id: 4, ingredient_id: 12, fraction: 3000 };
    let entries = resolve_log_entries(vec![
        (first, Some(oats())),
        (orphan, None),
        (wrong, Some(oats())),
        (last, Some(oats())),
    ]);
    assert_eq!(
        entries,
        vec![
            LogEntry { id: 1, ingredient: oats(), fraction: 1000 },
            LogEntry { id: 4, ingredient: oats(), fraction: 3000 },
        ]
    );
    assert_eq!(resolve_log_entry(orphan, None), None);
    assert_eq!(resolve_log_entry(wrong, Some(oats())), None);
    assert_eq!(
        resolve_log_entry(first, Some(oats())),
        Some(LogEntry { id: 1, ingredient: oats(), fraction: 1000 })
    );
    assert!(resolve_log_entries(vec![]).is_empty());
}

#[test]
fn row_counts_are_added_up() {
    assert_eq!(total_row_count(&[]), Some(0));
    assert_eq!(total_row_count(&[1, 0, 1, 1]), Some(3));
    assert_eq!(total_row_count(&[usize::MAX]), Some(usize::MAX));
    assert_eq!(total_row_count(&[usize::MAX, 0, 1, 0]), None);
    assert_eq!(total_row_count(&[usize::MAX - 2, 1, 1]), Some(usize::MAX));
}

#[test]
fn setup_makes_ten_tables_if_they_are_missing() {
    let creations = setup_tables();
    assert_eq!(creations.len(), 10);
    let names = [
        "ingredients",
        "categories",
        "ingredient_categories",
        "nutritional_info",
        "protein_sets",
        "fat_sets",
        "carbohydrate_sets",
        "vitamin_sets",
        "mineral_sets",
        "daily_logs",
    ];
    assert_eq!(tables().iter().map(|t| t.name()).collect::<Vec<_>>(), names);
    for ((creation, table), name) in creations.iter().zip(tables()).zip(names) {
        assert_eq!(*creation, table.create());
        assert!(creation.sql.starts_with(&format!("CREATE TABLE IF NOT EXISTS {name} (")));
        assert!(creation.sql.ends_with("\n);"));
        assert!(creation.params.is_empty());
        assert_eq!(creation.sql.matches("ON DELETE CASCADE").count(), table.owners().len());
        for owner in table.owners() {
            let clause = format!(
                "FOREIGN KEY({}) REFERENCES {}(id) ON DELETE CASCADE",
                owner.key(),
                owner.name()
            );
            assert!(creation.sql.contains(&clause));
            assert!(table.columns().contains(&format!("{} INTEGER", owner.key())));
        }
    }
    assert_eq!(creations, setup_tables());
    assert_eq!(start_connection().sql, "PRAGMA foreign_keys = ON;");
}

#[test]
fn creation_text_is_columns_then_foreign_keys() {
    assert_eq!(
        Table::IngredientCategories.create().sql,
        "CREATE TABLE IF NOT EXISTS ingredient_categories (
    ingredient_id INTEGER,
    category_id INTEGER,
    FOREIGN KEY(ingredient_id) REFERENCES ingredients(id) ON DELETE CASCADE,
    FOREIGN KEY(category_id) REFERENCES categories(id) ON DELETE CASCADE
);"
    );
    assert_eq!(
        Table::Categories.create().sql,
        "CREATE TABLE IF NOT EXISTS categories (
    id INTEGER PRIMARY KEY AUTOINCREMENT,
    name TEXT,
    icon_name TEXT,
    icon_color TEXT
);"
    );
    assert_eq!(
        Table::FatSets.create().sql,
        "CREATE TABLE IF NOT EXISTS fat_sets (
    id INTEGER PRIMARY KEY,
    nutrition_info_id INTEGER,
    saturated REAL,
    monounsaturated REAL,
    polyunsaturated REAL,
    FOREIGN KEY(nutrition_info_id) REFERENCES nutritional_info(id) ON DELETE CASCADE
);"
    );
}

#[test]
fn tables_are_owned_as_the_store_deletes() {
    assert!(Table::Ingredients.owners().is_empty());
    assert!(Table::Categories.owners().is_empty());
    assert_eq!(Table::IngredientCategories.owners(), vec![Table::Ingredients, Table::Categories]);
    assert_eq!(Table::NutritionalInfo.owners(), vec![Table::Ingredients]);
    assert_eq!(Table::DailyLogs.owners(), vec![Table::Ingredients]);
    for group in [
        Table::ProteinSets,
        Table::FatSets,
        Table::CarbohydrateSets,
        Table::VitaminSets,
        Table::MineralSets,
    ] {
        assert_eq!(group.owners(), vec![Table::NutritionalInfo]);
    }
    assert_eq!(Table::Ingredients.key(), "ingredient_id");
    assert_eq!(Table::Categories.key(), "category_id");
    assert_eq!(Table::NutritionalInfo.key(), "nutrition_info_id");
}
