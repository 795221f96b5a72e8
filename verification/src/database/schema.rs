//! The tables of the store and the statements that make them.
//!
//! A table that belongs to another names it with a foreign key that
//! deletes its rows with the row they belong to. An ingredient owns its
//! servings, its category links and its log entries; a serving owns its
//! five nutrient groups; a category owns its links and nothing else.
//! Ingredients and categories count their identities upwards for good: the
//! identity of a deleted row is not given out again.

use crate::database::{plain, spec_plain};
use crate::sql::{Statement, StatementView};
use vstd::prelude::*;
use vstd::string::*;

verus! {

/// Makes the store honour foreign keys. It has to run on every new
/// connection, outside a transaction.
pub const ENABLE_FOREIGN_KEYS: &'static str = "PRAGMA foreign_keys = ON;";

/// How every creation begins: a table that exists is left as it is.
pub const CREATE_IF_MISSING: &'static str = "CREATE TABLE IF NOT EXISTS ";

/// The ten tables of the store.
#[derive(Clone, Copy, Debug, PartialEq, Eq, Structural)]
pub enum Table {
    Ingredients,
    Categories,
    IngredientCategories,
    NutritionalInfo,
    ProteinSets,
    FatSets,
    CarbohydrateSets,
    VitaminSets,
    MineralSets,
    DailyLogs,
}

/// The number of tables.
pub const TABLES: usize = 10;

impl Table {
    /// The name of the table in the store.
    pub open spec fn spec_name(self) -> Seq<char> {
        match self {
            Table::Ingredients => "ingredients"@,
            Table::Categories => "categories"@,
            Table::IngredientCategories => "ingredient_categories"@,
            Table::NutritionalInfo => "nutritional_info"@,
            Table::ProteinSets => "protein_sets"@,
            Table::FatSets => "fat_sets"@,
            Table::CarbohydrateSets => "carbohydrate_sets"@,
            Table::VitaminSets => "vitamin_sets"@,
            Table::MineralSets => "mineral_sets"@,
            Table::DailyLogs => "daily_logs"@,
        }
    }

    /// The columns of the table, as they stand between the brackets of its
    /// creation.
    pub open spec fn spec_columns(self) -> Seq<char> {
        match self {
            Table::Ingredients => INGREDIENTS_COLUMNS@,
            Table::Categories => CATEGORIES_COLUMNS@,
            Table::IngredientCategories => INGREDIENT_CATEGORIES_COLUMNS@,
            Table::NutritionalInfo => NUTRITIONAL_INFO_COLUMNS@,
            Table::ProteinSets => PROTEIN_SETS_COLUMNS@,
            Table::FatSets => FAT_SETS_COLUMNS@,
            Table::CarbohydrateSets => CARBOHYDRATE_SETS_COLUMNS@,
            Table::VitaminSets => VITAMIN_SETS_COLUMNS@,
            Table::MineralSets => MINERAL_SETS_COLUMNS@,
            Table::DailyLogs => DAILY_LOGS_COLUMNS@,
        }
    }

    /// The tables that a row of this table belongs to.
    pub open spec fn spec_owners(self) -> Seq<Table> {
        match self {
            Table::Ingredients => seq![],
            Table::Categories => seq![],
            Table::IngredientCategories => seq![Table::Ingredients, Table::Categories],
            Table::NutritionalInfo => seq![Table::Ingredients],
            Table::ProteinSets => seq![Table::NutritionalInfo],
            Table::FatSets => seq![Table::NutritionalInfo],
            Table::CarbohydrateSets => seq![Table::NutritionalInfo],
            Table::VitaminSets => seq![Table::NutritionalInfo],
            Table::MineralSets => seq![Table::NutritionalInfo],
            Table::DailyLogs => seq![Table::Ingredients],
        }
    }

    /// The column by which a row names the row of this table that it
    /// belongs to. Only ingredients, categories and servings own rows of
    /// other tables; for the other tables this is their own identity.
    pub open spec fn spec_key(self) -> Seq<char> {
        match self {
            Table::Ingredients => "ingredient_id"@,
            Table::Categories => "category_id"@,
            Table::NutritionalInfo => "nutrition_info_id"@,
            _ => "id"@,
        }
    }

    /// The clause by which a table declares that its rows belong to rows
    /// of `self` and are deleted with them.
    pub open spec fn spec_foreign_key(self) -> Seq<char> {
        ",\n    FOREIGN KEY("@ + self.spec_key() + ") REFERENCES "@ + self.spec_name()
            + "(id) ON DELETE CASCADE"@
    }

    /// The foreign key clauses for the given owners, one after the other.
    pub open spec fn spec_foreign_keys(owners: Seq<Table>) -> Seq<char>
        decreases owners.len(),
    {
        if owners.len() == 0 {
            Seq::empty()
        } else {
            Table::spec_foreign_keys(owners.drop_last()) + owners.last().spec_foreign_key()
        }
    }

    /// The text that makes the table if it is missing: its columns, and a
    /// foreign key with `ON DELETE CASCADE` for each of its owners.
    pub open spec fn spec_create(self) -> Seq<char> {
        CREATE_IF_MISSING@ + self.spec_name() + " (\n"@ + self.spec_columns()
            + Table::spec_foreign_keys(self.spec_owners()) + "\n);"@
    }

    /// Whether deleting a row of `root` deletes the rows of `self` that
    /// belong to it, directly or through a table between them.
    pub open spec fn goes_with(self, root: Table) -> bool {
        self.spec_owners().contains(root) || exists|between: Table|
            self.spec_owners().contains(between) && #[trigger] between.spec_owners().contains(
                root,
            )
    }

    /// The name of the table in the store.
    pub fn name(self) -> (name: &'static str)
        ensures
            name@ == self.spec_name(),
    {
        match self {
            Table::Ingredients => "ingredients",
            Table::Categories => "categories",
            Table::IngredientCategories => "ingredient_categories",
            Table::NutritionalInfo => "nutritional_info",
            Table::ProteinSets => "protein_sets",
            Table::FatSets => "fat_sets",
            Table::CarbohydrateSets => "carbohydrate_sets",
            Table::VitaminSets => "vitamin_sets",
            Table::MineralSets => "mineral_sets",
            Table::DailyLogs => "daily_logs",
        }
    }

    /// The tables that a row of this table belongs to.
    pub fn owners(self) -> (owners: Vec<Table>)
        ensures
            owners@ == self.spec_owners(),
    {
        let owners: Vec<Table> = match self {
            Table::Ingredients | Table::Categories => Vec::new(),
            Table::IngredientCategories => vec![Table::Ingredients, Table::Categories],
            Table::NutritionalInfo | Table::DailyLogs => vec![Table::Ingredients],
            Table::ProteinSets
            | Table::FatSets
            | Table::CarbohydrateSets
            | Table::VitaminSets
            | Table::MineralSets => vec![Table::NutritionalInfo],
        };
        assert(owners@ =~= self.spec_owners());
        owners
    }

    /// The columns of the table, as they stand between the brackets of its
    /// creation.
    pub fn columns(self) -> (columns: &'static str)
        ensures
            columns@ == self.spec_columns(),
    {
        match self {
            Table::Ingredients => INGREDIENTS_COLUMNS,
            Table::Categories => CATEGORIES_COLUMNS,
            Table::IngredientCategories => INGREDIENT_CATEGORIES_COLUMNS,
            Table::NutritionalInfo => NUTRITIONAL_INFO_COLUMNS,
            Table::ProteinSets => PROTEIN_SETS_COLUMNS,
            Table::FatSets => FAT_SETS_COLUMNS,
            Table::CarbohydrateSets => CARBOHYDRATE_SETS_COLUMNS,
            Table::VitaminSets => VITAMIN_SETS_COLUMNS,
            Table::MineralSets => MINERAL_SETS_COLUMNS,
            Table::DailyLogs => DAILY_LOGS_COLUMNS,
        }
    }

    /// The column by which a row names the row of this table that it
    /// belongs to; for a table that owns no rows, its own identity.
    pub fn key(self) -> (key: &'static str)
        ensures
            key@ == self.spec_key(),
    {
        match self {
            Table::Ingredients => "ingredient_id",
            Table::Categories => "category_id",
            Table::NutritionalInfo => "nutrition_info_id",
            _ => "id",
        }
    }

    /// The statement that makes the table if it is missing. It changes no
    /// table that exists and no row.
    pub fn create(self) -> (creation: Statement)
        ensures
            creation@ == spec_plain(self.spec_create()),
    {
        let mut text: String = CREATE_IF_MISSING.to_owned();
        text.append(self.name());
        text.append(" (\n");
        text.append(self.columns());
        let ghost head = text@;
        let owners = self.owners();
        let mut i: usize = 0;
        while i < owners.len()
            invariant
                i <= owners.len(),
                text@ == head + Table::spec_foreign_keys(owners@.subrange(0, i as int)),
            decreases owners.len() - i,
        {
            assert(owners@.subrange(0, i + 1).drop_last() =~= owners@.subrange(0, i as int));
            let ghost before = text@;
            text.append(",\n    FOREIGN KEY(");
            text.append(owners[i].key());
            text.append(") REFERENCES ");
            text.append(owners[i].name());
            text.append("(id) ON DELETE CASCADE");
            assert(text@ =~= before + owners[i as int].spec_foreign_key());
            assert(text@ =~= head + Table::spec_foreign_keys(owners@.subrange(0, i + 1)));
            i = i + 1;
        }
        assert(owners@.subrange(0, i as int) =~= owners@);
        text.append("\n);");
        assert(text@ =~= self.spec_create());
        plain(text.as_str())
    }

    /// With an ingredient go its category links, its servings, the five
    /// nutrient groups of each serving and its log entries: every table
    /// but those of the ingredients and of the categories themselves.
    pub proof fn lemma_goes_with_ingredient(table: Table)
        ensures
            table.goes_with(Table::Ingredients) <==> table != Table::Ingredients && table
                != Table::Categories,
    {
        if table != Table::Ingredients && table != Table::Categories {
            if !table.spec_owners().contains(Table::Ingredients) {
                assert(table.spec_owners()[0] == Table::NutritionalInfo);
                assert(Table::NutritionalInfo.spec_owners()[0] == Table::Ingredients);
                assert(table.spec_owners().contains(Table::NutritionalInfo));
                assert(Table::NutritionalInfo.spec_owners().contains(Table::Ingredients));
            } else {
            }
        }
        if table == Table::IngredientCategories {
            assert(table.spec_owners()[0] == Table::Ingredients);
        }
        if table == Table::NutritionalInfo || table == Table::DailyLogs {
            assert(table.spec_owners()[0] == Table::Ingredients);
        }
    }

    /// With a category go its links to ingredients and nothing else: the
    /// ingredients stay, with what belongs to them.
    pub proof fn lemma_goes_with_category(table: Table)
        ensures
            table.goes_with(Table::Categories) <==> table == Table::IngredientCategories,
    {
        if table == Table::IngredientCategories {
            assert(table.spec_owners()[1] == Table::Categories);
        }
    }

    /// Every creation begins with `CREATE TABLE IF NOT EXISTS` and the
    /// name of its table, and declares for each owner of the table a
    /// foreign key that deletes with the owner.
    pub proof fn lemma_create_shape(table: Table, owner: int)
        ensures
            (CREATE_IF_MISSING@ + table.spec_name()).is_prefix_of(table.spec_create()),
            0 <= owner < table.spec_owners().len() ==> exists|at: int|
                0 <= at && at + table.spec_owners()[owner].spec_foreign_key().len()
                    <= table.spec_create().len() && #[trigger] table.spec_create().subrange(
                    at,
                    at + table.spec_owners()[owner].spec_foreign_key().len(),
                ) == table.spec_owners()[owner].spec_foreign_key(),
    {
        let owners = table.spec_owners();
        let text = table.spec_create();
        let head = CREATE_IF_MISSING@ + table.spec_name() + " (\n"@ + table.spec_columns();
        let start: int = head.len() as int;
        if 0 <= owner < owners.len() {
            let clause = owners[owner].spec_foreign_key();
            let first = owners[0].spec_foreign_key();
            let size: int = clause.len() as int;
            assert(owners.drop_last().len() == owners.len() - 1);
            assert(Table::spec_foreign_keys(Seq::<Table>::empty()) =~= Seq::<char>::empty());
            if owners.len() == 1 {
                assert(owners.drop_last() =~= Seq::empty());
                assert(owners.last() == owners[0]);
                assert(Table::spec_foreign_keys(owners) =~= first);
                assert(text.subrange(start, start + size) =~= clause);
            } else {
                assert(owners.len() == 2);
                let one = owners.drop_last();
                assert(one.drop_last() =~= Seq::empty());
                assert(one.last() == owners[0]);
                assert(Table::spec_foreign_keys(one) =~= first);
                assert(Table::spec_foreign_keys(owners) =~= first + owners[1].spec_foreign_key());
                if owner == 0 {
                    assert(text.subrange(start, start + size) =~= clause);
                } else {
                    let at: int = start + first.len();
                    assert(text.subrange(at, at + size) =~= clause);
                }
            }
        }
    }
}

/// The columns of the ingredients.
pub const INGREDIENTS_COLUMNS: &'static str = "    id INTEGER PRIMARY KEY AUTOINCREMENT,
    name TEXT,
    brand TEXT";

/// The columns of the categories.
pub const CATEGORIES_COLUMNS: &'static str = "    id INTEGER PRIMARY KEY AUTOINCREMENT,
    name TEXT,
    icon_name TEXT,
    icon_color TEXT";

/// The columns of the links between ingredients and categories.
pub const INGREDIENT_CATEGORIES_COLUMNS: &'static str = "    ingredient_id INTEGER,
    category_id INTEGER";

/// The columns of the servings.
pub const NUTRITIONAL_INFO_COLUMNS: &'static str = "    id INTEGER PRIMARY KEY,
    default_amount REAL,
    default_unit INTEGER,
    kilocalories REAL,
    ingredient_id INTEGER";

/// The columns of the amino acids of a serving.
pub const PROTEIN_SETS_COLUMNS: &'static str = "    id INTEGER PRIMARY KEY,
    nutrition_info_id INTEGER,
    histidine REAL,
    isoleucine REAL,
    leucine REAL,
    lysine REAL,
    methionine REAL,
    phenylalanine REAL,
    threonine REAL,
    tryptophan REAL,
    valine REAL,
    alanine REAL,
    arginine REAL,
    asparagine REAL,
    aspartic_acid REAL,
    cysteine REAL,
    glutamic_acid REAL,
    glutamine REAL,
    glycine REAL,
    proline REAL,
    serine REAL,
    tyrosine REAL";

/// The columns of the fats of a serving.
pub const FAT_SETS_COLUMNS: &'static str = "    id INTEGER PRIMARY KEY,
    nutrition_info_id INTEGER,
    saturated REAL,
    monounsaturated REAL,
    polyunsaturated REAL";

/// The columns of the carbohydrates of a serving.
pub const CARBOHYDRATE_SETS_COLUMNS: &'static str = "    id INTEGER PRIMARY KEY,
    nutrition_info_id INTEGER,
    starch REAL,
    fiber REAL,
    sugars REAL,
    sugar_alcohols REAL";

/// The columns of the vitamins of a serving.
pub const VITAMIN_SETS_COLUMNS: &'static str = "    id INTEGER PRIMARY KEY,
    nutrition_info_id INTEGER,
    vitamin_a REAL,
    vitamin_b1 REAL,
    vitamin_b2 REAL,
    vitamin_b3 REAL,
    vitamin_b5 REAL,
    vitamin_b6 REAL,
    vitamin_b9 REAL,
    vitamin_b12 REAL,
    vitamin_c REAL,
    vitamin_d REAL,
    vitamin_e REAL,
    vitamin_k REAL,
    betaine REAL,
    choline REAL";

/// The columns of the minerals of a serving.
pub const MINERAL_SETS_COLUMNS: &'static str = "    id INTEGER PRIMARY KEY,
    nutrition_info_id INTEGER,
    calcium REAL,
    copper REAL,
    iron REAL,
    magnesium REAL,
    manganese REAL,
    phosphorus REAL,
    potassium REAL,
    selenium REAL,
    sodium REAL,
    zinc REAL";

/// The columns of the daily log.
pub const DAILY_LOGS_COLUMNS: &'static str = "    id INTEGER PRIMARY KEY,
    date TEXT,
    ingredient_id INTEGER,
    fraction REAL";

/// The tables in the order in which they are made: each after its owners.
pub open spec fn spec_tables() -> Seq<Table> {
    seq![
        Table::Ingredients,
        Table::Categories,
        Table::IngredientCategories,
        Table::NutritionalInfo,
        Table::ProteinSets,
        Table::FatSets,
        Table::CarbohydrateSets,
        Table::VitaminSets,
        Table::MineralSets,
        Table::DailyLogs,
    ]
}

/// The statements that make the ten tables.
pub open spec fn spec_setup_tables() -> Seq<StatementView> {
    spec_tables().map_values(|table: Table| spec_plain(table.spec_create()))
}

/// The statement that a new connection runs first, so that deleting a row
/// deletes what belongs to it.
pub fn start_connection() -> (pragma: Statement)
    ensures
        pragma@ == spec_plain(ENABLE_FOREIGN_KEYS@),
{
    plain(ENABLE_FOREIGN_KEYS)
}

/// The ten tables, each after its owners.
pub fn tables() -> (tables: Vec<Table>)
    ensures
        tables@ == spec_tables(),
{
    let tables: Vec<Table> = vec![
        Table::Ingredients,
        Table::Categories,
        Table::IngredientCategories,
        Table::NutritionalInfo,
        Table::ProteinSets,
        Table::FatSets,
        Table::CarbohydrateSets,
        Table::VitaminSets,
        Table::MineralSets,
        Table::DailyLogs,
    ];
    assert(tables@ =~= spec_tables());
    tables
}

/// The statements that make the tables that are not there yet. They
/// change no table that exists and no row, so they may run at every start.
pub fn setup_tables() -> (creations: Vec<Statement>)
    ensures
        creations.deep_view() == spec_setup_tables(),
{
    let tables = tables();
    let mut creations: Vec<Statement> = Vec::new();
    let mut i: usize = 0;
    while i < tables.len()
        invariant
            i <= tables.len(),
            tables@ == spec_tables(),
            creations.len() == i,
            forall|k: int|
                0 <= k < i ==> (#[trigger] creations[k])@ == spec_plain(tables[k].spec_create()),
        decreases tables.len() - i,
    {
        creations.push(tables[i].create());
        i = i + 1;
    }
    assert(creations.deep_view() =~= spec_setup_tables());
    creations
}

/// Every table is made once, and after the tables that own it.
pub proof fn lemma_owners_come_first(i: int, owner: int)
    requires
        0 <= i < spec_tables().len(),
        0 <= owner < spec_tables()[i].spec_owners().len(),
    ensures
        spec_tables().len() == TABLES,
        exists|j: int| 0 <= j < i && #[trigger] spec_tables()[j] == spec_tables()[i].spec_owners()[owner],
{
    let tables = spec_tables();
    let wanted = tables[i].spec_owners()[owner];
    if wanted == Table::Ingredients {
        assert(tables[0] == wanted);
    } else if wanted == Table::Categories {
        assert(tables[1] == wanted);
    } else {
        assert(tables[3] == wanted);
    }
}

} // verus!
