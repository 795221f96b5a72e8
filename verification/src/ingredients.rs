//! The data model: categories, ingredients, their nutritional information
//! and daily log entries.
//!
//! Every amount is a whole number of thousandths of its unit: a mass of
//! `1500` is 1.5 g, an energy of `148000` is 148 kcal, a fraction of `500`
//! is half a serving.

use crate::color::Color;
use crate::units::Unit;
use vstd::prelude::*;

verus! {

/// A group that ingredients are filed under, shown with a tinted icon.
#[derive(Clone, Debug, PartialEq, Eq)]
pub struct Category {
    pub id: u32,
    pub name: String,
    pub icon_name: String,
    pub icon_color: Color,
}

/// What a [`Category`] holds, as mathematical values.
pub struct CategoryView {
    pub id: u32,
    pub name: Seq<char>,
    pub icon_name: Seq<char>,
    pub icon_color: Color,
}

impl View for Category {
    type V = CategoryView;

    open spec fn view(&self) -> CategoryView {
        CategoryView {
            id: self.id,
            name: self.name@,
            icon_name: self.icon_name@,
            icon_color: self.icon_color,
        }
    }
}

impl DeepView for Category {
    type V = CategoryView;

    open spec fn deep_view(&self) -> CategoryView {
        self@
    }
}

/// A food with its categories and its nutritional information per
/// reference serving.
#[derive(Clone, Debug, PartialEq, Eq)]
pub struct Ingredient {
    pub id: u32,
    pub name: String,
    pub brand: String,
    pub categories: Vec<Category>,
    pub nutritional_info: Vec<NutritionalInfo>,
}

/// What an [`Ingredient`] holds, as mathematical values.
pub struct IngredientView {
    pub id: u32,
    pub name: Seq<char>,
    pub brand: Seq<char>,
    pub categories: Seq<CategoryView>,
    pub nutritional_info: Seq<NutritionalInfo>,
}

impl View for Ingredient {
    type V = IngredientView;

    open spec fn view(&self) -> IngredientView {
        IngredientView {
            id: self.id,
            name: self.name@,
            brand: self.brand@,
            categories: self.categories.deep_view(),
            nutritional_info: self.nutritional_info@,
        }
    }
}

impl DeepView for Ingredient {
    type V = IngredientView;

    open spec fn deep_view(&self) -> IngredientView {
        self@
    }
}

impl Ingredient {
    /// Whether the ingredient has a serving. The queries for ingredients
    /// give one row for each serving with all its nutrient groups, so an
    /// ingredient without a serving is stored but never listed.
    pub open spec fn spec_is_listable(self) -> bool {
        self.nutritional_info.len() > 0
    }

    /// Whether the ingredient will be found by the queries for ingredients
    /// once it is stored: it is if it has at least one serving.
    pub fn is_listable(&self) -> (listable: bool)
        ensures
            listable == self.spec_is_listable(),
    {
        self.nutritional_info.len() > 0
    }
}

/// One consumption of an ingredient on a day: `fraction` thousandths of
/// its reference serving.
#[derive(Clone, Debug, PartialEq, Eq)]
pub struct LogEntry {
    pub id: u32,
    pub ingredient: Ingredient,
    pub fraction: u32,
}

/// What a [`LogEntry`] holds, as mathematical values.
pub struct LogEntryView {
    pub id: u32,
    pub ingredient: IngredientView,
    pub fraction: u32,
}

impl View for LogEntry {
    type V = LogEntryView;

    open spec fn view(&self) -> LogEntryView {
        LogEntryView { id: self.id, ingredient: self.ingredient@, fraction: self.fraction }
    }
}

impl DeepView for LogEntry {
    type V = LogEntryView;

    open spec fn deep_view(&self) -> LogEntryView {
        self@
    }
}

/// The nutrients of one reference serving. `kilocalories` is the energy as
/// entered; [`NutritionalInfo::estimate_calories`] never replaces it.
#[derive(Clone, Copy, Debug, PartialEq, Eq, Structural)]
pub struct NutritionalInfo {
    pub default_amount: u32,
    pub default_unit: Unit,
    pub kilocalories: u32,
    pub macronutrients: Macronutrients,
    pub micronutrients: Micronutrients,
}

impl NutritionalInfo {
    /// The energy that the macronutrients account for.
    pub open spec fn spec_estimate_calories(self) -> int {
        self.macronutrients.spec_estimate_calories()
    }

    /// Estimates the energy of the serving from its macronutrients, in
    /// thousandths of a kilocalorie.
    pub fn estimate_calories(&self) -> (energy: u64)
        ensures
            energy == self.spec_estimate_calories(),
    {
        self.macronutrients.estimate_calories()
    }
}

/// The nutrients that carry energy.
#[derive(Clone, Copy, Debug, PartialEq, Eq, Structural)]
pub struct Macronutrients {
    pub proteins: Proteins,
    pub fats: Fats,
    pub carbohydrates: Carbohydrates,
}

impl Macronutrients {
    /// Four kilocalories for a gram of protein, nine for a gram of fat, four
    /// for a gram of net carbohydrates.
    pub open spec fn spec_estimate_calories(self) -> int {
        self.proteins.spec_total_proteins() * 4 + self.fats.spec_total_fats() * 9
            + self.carbohydrates.spec_net_carbs() * 4
    }

    /// Estimates the energy of the macronutrients, in thousandths of a
    /// kilocalorie.
    pub fn estimate_calories(&self) -> (energy: u64)
        ensures
            energy == self.spec_estimate_calories(),
    {
        self.proteins.total_proteins() * 4 + self.fats.total_fats() * 9
            + self.carbohydrates.net_carbs() * 4
    }
}

/// The protein of a serving, one mass for each amino acid.
#[derive(Clone, Copy, Debug, PartialEq, Eq, Structural)]
pub struct Proteins {
    pub essential_amino_acids: EssentialAminoAcids,
    pub non_essential_amino_acids: NonEssentialAminoAcids,
}

impl Proteins {
    /// The mass of all twenty amino acids together.
    pub open spec fn spec_total_proteins(self) -> int {
        self.essential_amino_acids.spec_total() + self.non_essential_amino_acids.spec_total()
    }

    /// The mass of all twenty amino acids together.
    pub fn total_proteins(&self) -> (total: u64)
        ensures
            total == self.spec_total_proteins(),
    {
        self.essential_amino_acids.total() + self.non_essential_amino_acids.total()
    }
}

/// The masses of the nine amino acids that the body cannot make.
#[derive(Clone, Copy, Debug, PartialEq, Eq, Structural)]
pub struct EssentialAminoAcids {
    pub histidine: u32,
    pub isoleucine: u32,
    pub leucine: u32,
    pub lysine: u32,
    pub methionine: u32,
    pub phenylalanine: u32,
    pub threonine: u32,
    pub tryptophan: u32,
    pub valine: u32,
}

impl EssentialAminoAcids {
    /// The mass of the nine essential amino acids together.
    pub open spec fn spec_total(self) -> int {
        self.histidine + self.isoleucine + self.leucine + self.lysine + self.methionine
            + self.phenylalanine + self.threonine + self.tryptophan + self.valine
    }

    /// The mass of the nine essential amino acids together.
    pub fn total(&self) -> (total: u64)
        ensures
            total == self.spec_total(),
    {
        let head: u64 = self.histidine as u64 + self.isoleucine as u64 + self.leucine as u64
            + self.lysine as u64 + self.methionine as u64;
        head + self.phenylalanine as u64 + self.threonine as u64 + self.tryptophan as u64
            + self.valine as u64
    }
}

/// The masses of the eleven amino acids that the body can make.
#[derive(Clone, Copy, Debug, PartialEq, Eq, Structural)]
pub struct NonEssentialAminoAcids {
    pub alanine: u32,
    pub arginine: u32,
    pub asparagine: u32,
    pub aspartic_acid: u32,
    pub cysteine: u32,
    pub glutamic_acid: u32,
    pub glutamine: u32,
    pub glycine: u32,
    pub proline: u32,
    pub serine: u32,
    pub tyrosine: u32,
}

impl NonEssentialAminoAcids {
    /// The mass of the eleven non-essential amino acids together.
    pub open spec fn spec_total(self) -> int {
        self.alanine + self.arginine + self.asparagine + self.aspartic_acid + self.cysteine
            + self.glutamic_acid + self.glutamine + self.glycine + self.proline + self.serine
            + self.tyrosine
    }

    /// The mass of the eleven non-essential amino acids together.
    pub fn total(&self) -> (total: u64)
        ensures
            total == self.spec_total(),
    {
        let head: u64 = self.alanine as u64 + self.arginine as u64 + self.asparagine as u64
            + self.aspartic_acid as u64 + self.cysteine as u64 + self.glutamic_acid as u64;
        head + self.glutamine as u64 + self.glycine as u64 + self.proline as u64
            + self.serine as u64 + self.tyrosine as u64
    }
}

/// The masses of the three kinds of fat.
#[derive(Clone, Copy, Debug, PartialEq, Eq, Structural)]
pub struct Fats {
    pub saturated: u32,
    pub monounsaturated: u32,
    pub polyunsaturated: u32,
}

impl Fats {
    /// The mass of all fats together.
    pub open spec fn spec_total_fats(self) -> int {
        self.saturated + self.monounsaturated + self.polyunsaturated
    }

    /// The mass of all fats together.
    pub fn total_fats(&self) -> (total: u64)
        ensures
            total == self.spec_total_fats(),
    {
        self.saturated as u64 + self.monounsaturated as u64 + self.polyunsaturated as u64
    }
}

/// The masses of the four kinds of carbohydrate.
#[derive(Clone, Copy, Debug, PartialEq, Eq, Structural)]
pub struct Carbohydrates {
    pub starch: u32,
    pub fiber: u32,
    pub sugars: u32,
    pub sugar_alcohols: u32,
}

impl Carbohydrates {
    /// The mass of all carbohydrates together.
    pub open spec fn spec_total_carbs(self) -> int {
        self.starch + self.fiber + self.sugars + self.sugar_alcohols
    }

    /// The mass that counts towards energy: starch, sugars and half of the
    /// sugar alcohols, the half rounded down to a whole thousandth.
    pub open spec fn spec_net_carbs(self) -> int {
        self.starch + self.sugars + self.sugar_alcohols / 2
    }

    /// The mass of all carbohydrates together.
    pub fn total_carbs(&self) -> (total: u64)
        ensures
            total == self.spec_total_carbs(),
    {
        self.starch as u64 + self.fiber as u64 + self.sugars as u64 + self.sugar_alcohols as u64
    }

    /// The mass that counts towards energy: fiber is left out and sugar
    /// alcohols count half.
    pub fn net_carbs(&self) -> (net: u64)
        ensures
            net == self.spec_net_carbs(),
    {
        self.starch as u64 + self.sugars as u64 + (self.sugar_alcohols / 2) as u64
    }
}

/// The nutrients that carry no energy.
#[derive(Clone, Copy, Debug, PartialEq, Eq, Structural)]
pub struct Micronutrients {
    pub vitamins: Vitamins,
    pub minerals: Minerals,
}

/// The masses of the vitamins, of betaine and of choline.
#[derive(Clone, Copy, Debug, PartialEq, Eq, Structural)]
pub struct Vitamins {
    pub vitamin_a: u32,
    pub vitamin_b1: u32,
    pub vitamin_b2: u32,
    pub vitamin_b3: u32,
    pub vitamin_b5: u32,
    pub vitamin_b6: u32,
    pub vitamin_b9: u32,
    pub vitamin_b12: u32,
    pub vitamin_c: u32,
    pub vitamin_d: u32,
    pub vitamin_e: u32,
    pub vitamin_k: u32,
    pub betaine: u32,
    pub choline: u32,
}

/// The masses of the ten minerals.
#[derive(Clone, Copy, Debug, PartialEq, Eq, Structural)]
pub struct Minerals {
    pub calcium: u32,
    pub copper: u32,
    pub iron: u32,
    pub magnesium: u32,
    pub manganese: u32,
    pub phosphorus: u32,
    pub potassium: u32,
    pub selenium: u32,
    pub sodium: u32,
    pub zinc: u32,
}

} // verus!
