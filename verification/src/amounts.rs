//! The nutrient groups as lists of amounts, in the order of their stored
//! columns.

use crate::ingredients::{
    Carbohydrates, EssentialAminoAcids, Fats, Macronutrients, Micronutrients, Minerals,
    NonEssentialAminoAcids, NutritionalInfo, Proteins, Vitamins,
};
use crate::units::Unit;
use vstd::prelude::*;

verus! {

impl EssentialAminoAcids {
    /// The amounts of the nine essential amino acids, in the order of their columns.
    pub open spec fn spec_amounts(self) -> Seq<u32> {
        seq![
            self.histidine, self.isoleucine, self.leucine, self.lysine, self.methionine,
            self.phenylalanine, self.threonine, self.tryptophan, self.valine,
        ]
    }

    /// The group whose amounts are the first 9 of `amounts`.
    pub open spec fn spec_from_amounts(amounts: Seq<u32>) -> EssentialAminoAcids
        recommends
            amounts.len() >= 9,
    {
        EssentialAminoAcids {
            histidine: amounts[0],
            isoleucine: amounts[1],
            leucine: amounts[2],
            lysine: amounts[3],
            methionine: amounts[4],
            phenylalanine: amounts[5],
            threonine: amounts[6],
            tryptophan: amounts[7],
            valine: amounts[8],
        }
    }

    /// The amounts of the nine essential amino acids, in the order of their columns.
    pub fn amounts(&self) -> (amounts: Vec<u32>)
        ensures
            amounts@ == self.spec_amounts(),
    {
        let amounts: Vec<u32> = vec![
            self.histidine, self.isoleucine, self.leucine, self.lysine, self.methionine,
            self.phenylalanine, self.threonine, self.tryptophan, self.valine,
        ];
        assert(amounts@ =~= self.spec_amounts());
        amounts
    }

    /// Takes the nine essential amino acids from `amounts`, starting at index `at`.
    pub(crate) fn from_amounts(amounts: &Vec<u32>, at: usize) -> (group: EssentialAminoAcids)
        requires
            at + 9 <= amounts.len(),
        ensures
            group == EssentialAminoAcids::spec_from_amounts(amounts@.subrange(at as int, at + 9)),
    {
        EssentialAminoAcids {
            histidine: amounts[at],
            isoleucine: amounts[at + 1],
            leucine: amounts[at + 2],
            lysine: amounts[at + 3],
            methionine: amounts[at + 4],
            phenylalanine: amounts[at + 5],
            threonine: amounts[at + 6],
            tryptophan: amounts[at + 7],
            valine: amounts[at + 8],
        }
    }

    /// A group is read back from its own amounts, and 9 amounts are
    /// those of the group read from them.
    pub proof fn lemma_amounts_round_trip(group: EssentialAminoAcids, amounts: Seq<u32>)
        ensures
            group.spec_amounts().len() == 9,
            EssentialAminoAcids::spec_from_amounts(group.spec_amounts()) == group,
            amounts.len() == 9 ==> EssentialAminoAcids::spec_from_amounts(amounts).spec_amounts() == amounts,
    {
        if amounts.len() == 9 {
            assert(EssentialAminoAcids::spec_from_amounts(amounts).spec_amounts() =~= amounts);
        }
    }
}

impl NonEssentialAminoAcids {
    /// The amounts of the eleven non-essential amino acids, in the order of their columns.
    pub open spec fn spec_amounts(self) -> Seq<u32> {
        seq![
            self.alanine, self.arginine, self.asparagine, self.aspartic_acid, self.cysteine,
            self.glutamic_acid, self.glutamine, self.glycine, self.proline, self.serine,
            self.tyrosine,
        ]
    }

    /// The group whose amounts are the first 11 of `amounts`.
    pub open spec fn spec_from_amounts(amounts: Seq<u32>) -> NonEssentialAminoAcids
        recommends
            amounts.len() >= 11,
    {
        NonEssentialAminoAcids {
            alanine: amounts[0],
            arginine: amounts[1],
            asparagine: amounts[2],
            aspartic_acid: amounts[3],
            cysteine: amounts[4],
            glutamic_acid: amounts[5],
            glutamine: amounts[6],
            glycine: amounts[7],
            proline: amounts[8],
            serine: amounts[9],
            tyrosine: amounts[10],
        }
    }

    /// The amounts of the eleven non-essential amino acids, in the order of their columns.
    pub fn amounts(&self) -> (amounts: Vec<u32>)
        ensures
            amounts@ == self.spec_amounts(),
    {
        let amounts: Vec<u32> = vec![
            self.alanine, self.arginine, self.asparagine, self.aspartic_acid, self.cysteine,
            self.glutamic_acid, self.glutamine, self.glycine, self.proline, self.serine,
            self.tyrosine,
        ];
        assert(amounts@ =~= self.spec_amounts());
        amounts
    }

    /// Takes the eleven non-essential amino acids from `amounts`, starting at index `at`.
    pub(crate) fn from_amounts(amounts: &Vec<u32>, at: usize) -> (group: NonEssentialAminoAcids)
        requires
            at + 11 <= amounts.len(),
        ensures
            group == NonEssentialAminoAcids::spec_from_amounts(amounts@.subrange(at as int, at + 11)),
    {
        NonEssentialAminoAcids {
            alanine: amounts[at],
            arginine: amounts[at + 1],
            asparagine: amounts[at + 2],
            aspartic_acid: amounts[at + 3],
            cysteine: amounts[at + 4],
            glutamic_acid: amounts[at + 5],
            glutamine: amounts[at + 6],
            glycine: amounts[at + 7],
            proline: amounts[at + 8],
            serine: amounts[at + 9],
            tyrosine: amounts[at + 10],
        }
    }

    /// A group is read back from its own amounts, and 11 amounts are
    /// those of the group read from them.
    pub proof fn lemma_amounts_round_trip(group: NonEssentialAminoAcids, amounts: Seq<u32>)
        ensures
            group.spec_amounts().len() == 11,
            NonEssentialAminoAcids::spec_from_amounts(group.spec_amounts()) == group,
            amounts.len() == 11 ==> NonEssentialAminoAcids::spec_from_amounts(amounts).spec_amounts() == amounts,
    {
        if amounts.len() == 11 {
            assert(NonEssentialAminoAcids::spec_from_amounts(amounts).spec_amounts() =~= amounts);
        }
    }
}

impl Fats {
    /// The amounts of the three fats, in the order of their columns.
    pub open spec fn spec_amounts(self) -> Seq<u32> {
        seq![
            self.saturated, self.monounsaturated, self.polyunsaturated,
        ]
    }

    /// The group whose amounts are the first 3 of `amounts`.
    pub open spec fn spec_from_amounts(amounts: Seq<u32>) -> Fats
        recommends
            amounts.len() >= 3,
    {
        Fats {
            saturated: amounts[0],
            monounsaturated: amounts[1],
            polyunsaturated: amounts[2],
        }
    }

    /// The amounts of the three fats, in the order of their columns.
    pub fn amounts(&self) -> (amounts: Vec<u32>)
        ensures
            amounts@ == self.spec_amounts(),
    {
        let amounts: Vec<u32> = vec![
            self.saturated, self.monounsaturated, self.polyunsaturated,
        ];
        assert(amounts@ =~= self.spec_amounts());
        amounts
    }

    /// Takes the three fats from `amounts`, starting at index `at`.
    pub(crate) fn from_amounts(amounts: &Vec<u32>, at: usize) -> (group: Fats)
        requires
            at + 3 <= amounts.len(),
        ensures
            group == Fats::spec_from_amounts(amounts@.subrange(at as int, at + 3)),
    {
        Fats {
            saturated: amounts[at],
            monounsaturated: amounts[at + 1],
            polyunsaturated: amounts[at + 2],
        }
    }

    /// A group is read back from its own amounts, and 3 amounts are
    /// those of the group read from them.
    pub proof fn lemma_amounts_round_trip(group: Fats, amounts: Seq<u32>)
        ensures
            group.spec_amounts().len() == 3,
            Fats::spec_from_amounts(group.spec_amounts()) == group,
            amounts.len() == 3 ==> Fats::spec_from_amounts(amounts).spec_amounts() == amounts,
    {
        if amounts.len() == 3 {
            assert(Fats::spec_from_amounts(amounts).spec_amounts() =~= amounts);
        }
    }
}

impl Carbohydrates {
    /// The amounts of the four carbohydrates, in the order of their columns.
    pub open spec fn spec_amounts(self) -> Seq<u32> {
        seq![
            self.starch, self.fiber, self.sugars, self.sugar_alcohols,
        ]
    }

    /// The group whose amounts are the first 4 of `amounts`.
    pub open spec fn spec_from_amounts(amounts: Seq<u32>) -> Carbohydrates
        recommends
            amounts.len() >= 4,
    {
        Carbohydrates {
            starch: amounts[0],
            fiber: amounts[1],
            sugars: amounts[2],
            sugar_alcohols: amounts[3],
        }
    }

    /// The amounts of the four carbohydrates, in the order of their columns.
    pub fn amounts(&self) -> (amounts: Vec<u32>)
        ensures
            amounts@ == self.spec_amounts(),
    {
        let amounts: Vec<u32> = vec![
            self.starch, self.fiber, self.sugars, self.sugar_alcohols,
        ];
        assert(amounts@ =~= self.spec_amounts());
        amounts
    }

    /// Takes the four carbohydrates from `amounts`, starting at index `at`.
    pub(crate) fn from_amounts(amounts: &Vec<u32>, at: usize) -> (group: Carbohydrates)
        requires
            at + 4 <= amounts.len(),
        ensures
            group == Carbohydrates::spec_from_amounts(amounts@.subrange(at as int, at + 4)),
    {
        Carbohydrates {
            starch: amounts[at],
            fiber: amounts[at + 1],
            sugars: amounts[at + 2],
            sugar_alcohols: amounts[at + 3],
        }
    }

    /// A group is read back from its own amounts, and 4 amounts are
    /// those of the group read from them.
    pub proof fn lemma_amounts_round_trip(group: Carbohydrates, amounts: Seq<u32>)
        ensures
            group.spec_amounts().len() == 4,
            Carbohydrates::spec_from_amounts(group.spec_amounts()) == group,
            amounts.len() == 4 ==> Carbohydrates::spec_from_amounts(amounts).spec_amounts() == amounts,
    {
        if amounts.len() == 4 {
            assert(Carbohydrates::spec_from_amounts(amounts).spec_amounts() =~= amounts);
        }
    }
}

impl Vitamins {
    /// The amounts of the fourteen vitamins, in the order of their columns.
    pub open spec fn spec_amounts(self) -> Seq<u32> {
        seq![
            self.vitamin_a, self.vitamin_b1, self.vitamin_b2, self.vitamin_b3, self.vitamin_b5,
            self.vitamin_b6, self.vitamin_b9, self.vitamin_b12, self.vitamin_c, self.vitamin_d,
            self.vitamin_e, self.vitamin_k, self.betaine, self.choline,
        ]
    }

    /// The group whose amounts are the first 14 of `amounts`.
    pub open spec fn spec_from_amounts(amounts: Seq<u32>) -> Vitamins
        recommends
            amounts.len() >= 14,
    {
        Vitamins {
            vitamin_a: amounts[0],
            vitamin_b1: amounts[1],
            vitamin_b2: amounts[2],
            vitamin_b3: amounts[3],
            vitamin_b5: amounts[4],
            vitamin_b6: amounts[5],
            vitamin_b9: amounts[6],
            vitamin_b12: amounts[7],
            vitamin_c: amounts[8],
            vitamin_d: amounts[9],
            vitamin_e: amounts[10],
            vitamin_k: amounts[11],
            betaine: amounts[12],
            choline: amounts[13],
        }
    }

    /// The amounts of the fourteen vitamins, in the order of their columns.
    pub fn amounts(&self) -> (amounts: Vec<u32>)
        ensures
            amounts@ == self.spec_amounts(),
    {
        let amounts: Vec<u32> = vec![
            self.vitamin_a, self.vitamin_b1, self.vitamin_b2, self.vitamin_b3, self.vitamin_b5,
            self.vitamin_b6, self.vitamin_b9, self.vitamin_b12, self.vitamin_c, self.vitamin_d,
            self.vitamin_e, self.vitamin_k, self.betaine, self.choline,
        ];
        assert(amounts@ =~= self.spec_amounts());
        amounts
    }

    /// Takes the fourteen vitamins from `amounts`, starting at index `at`.
    pub(crate) fn from_amounts(amounts: &Vec<u32>, at: usize) -> (group: Vitamins)
        requires
            at + 14 <= amounts.len(),
        ensures
            group == Vitamins::spec_from_amounts(amounts@.subrange(at as int, at + 14)),
    {
        Vitamins {
            vitamin_a: amounts[at],
            vitamin_b1: amounts[at + 1],
            vitamin_b2: amounts[at + 2],
            vitamin_b3: amounts[at + 3],
            vitamin_b5: amounts[at + 4],
            vitamin_b6: amounts[at + 5],
            vitamin_b9: amounts[at + 6],
            vitamin_b12: amounts[at + 7],
            vitamin_c: amounts[at + 8],
            vitamin_d: amounts[at + 9],
            vitamin_e: amounts[at + 10],
            vitamin_k: amounts[at + 11],
            betaine: amounts[at + 12],
            choline: amounts[at + 13],
        }
    }

    /// A group is read back from its own amounts, and 14 amounts are
    /// those of the group read from them.
    pub proof fn lemma_amounts_round_trip(group: Vitamins, amounts: Seq<u32>)
        ensures
            group.spec_amounts().len() == 14,
            Vitamins::spec_from_amounts(group.spec_amounts()) == group,
            amounts.len() == 14 ==> Vitamins::spec_from_amounts(amounts).spec_amounts() == amounts,
    {
        if amounts.len() == 14 {
            assert(Vitamins::spec_from_amounts(amounts).spec_amounts() =~= amounts);
        }
    }
}

impl Minerals {
    /// The amounts of the ten minerals, in the order of their columns.
    pub open spec fn spec_amounts(self) -> Seq<u32> {
        seq![
            self.calcium, self.copper, self.iron, self.magnesium, self.manganese,
            self.phosphorus, self.potassium, self.selenium, self.sodium, self.zinc,
        ]
    }

    /// The group whose amounts are the first 10 of `amounts`.
    pub open spec fn spec_from_amounts(amounts: Seq<u32>) -> Minerals
        recommends
            amounts.len() >= 10,
    {
        Minerals {
            calcium: amounts[0],
            copper: amounts[1],
            iron: amounts[2],
            magnesium: amounts[3],
            manganese: amounts[4],
            phosphorus: amounts[5],
            potassium: amounts[6],
            selenium: amounts[7],
            sodium: amounts[8],
            zinc: amounts[9],
        }
    }

    /// The amounts of the ten minerals, in the order of their columns.
    pub fn amounts(&self) -> (amounts: Vec<u32>)
        ensures
            amounts@ == self.spec_amounts(),
    {
        let amounts: Vec<u32> = vec![
            self.calcium, self.copper, self.iron, self.magnesium, self.manganese,
            self.phosphorus, self.potassium, self.selenium, self.sodium, self.zinc,
        ];
        assert(amounts@ =~= self.spec_amounts());
        amounts
    }

    /// Takes the ten minerals from `amounts`, starting at index `at`.
    pub(crate) fn from_amounts(amounts: &Vec<u32>, at: usize) -> (group: Minerals)
        requires
            at + 10 <= amounts.len(),
        ensures
            group == Minerals::spec_from_amounts(amounts@.subrange(at as int, at + 10)),
    {
        Minerals {
            calcium: amounts[at],
            copper: amounts[at + 1],
            iron: amounts[at + 2],
            magnesium: amounts[at + 3],
            manganese: amounts[at + 4],
            phosphorus: amounts[at + 5],
            potassium: amounts[at + 6],
            selenium: amounts[at + 7],
            sodium: amounts[at + 8],
            zinc: amounts[at + 9],
        }
    }

    /// A group is read back from its own amounts, and 10 amounts are
    /// those of the group read from them.
    pub proof fn lemma_amounts_round_trip(group: Minerals, amounts: Seq<u32>)
        ensures
            group.spec_amounts().len() == 10,
            Minerals::spec_from_amounts(group.spec_amounts()) == group,
            amounts.len() == 10 ==> Minerals::spec_from_amounts(amounts).spec_amounts() == amounts,
    {
        if amounts.len() == 10 {
            assert(Minerals::spec_from_amounts(amounts).spec_amounts() =~= amounts);
        }
    }
}

/// The number of nutrient amounts of one serving.
pub const NUTRIENTS: usize = 51;

impl NutritionalInfo {
    /// The amounts of all nutrients, group after group: amino acids
    /// (essential, then non-essential), fats, carbohydrates, vitamins and
    /// minerals.
    pub open spec fn spec_nutrient_amounts(self) -> Seq<u32> {
        self.macronutrients.proteins.essential_amino_acids.spec_amounts()
            + self.macronutrients.proteins.non_essential_amino_acids.spec_amounts()
            + self.macronutrients.fats.spec_amounts()
            + self.macronutrients.carbohydrates.spec_amounts()
            + self.micronutrients.vitamins.spec_amounts()
            + self.micronutrients.minerals.spec_amounts()
    }

    /// The serving with the given header and the nutrients whose amounts
    /// are the first 51 of `amounts`.
    pub open spec fn spec_from_amounts(
        default_amount: u32,
        default_unit: Unit,
        kilocalories: u32,
        amounts: Seq<u32>,
    ) -> NutritionalInfo
        recommends
            amounts.len() >= NUTRIENTS,
    {
        NutritionalInfo {
            default_amount,
            default_unit,
            kilocalories,
            macronutrients: Macronutrients {
                proteins: Proteins {
                    essential_amino_acids: EssentialAminoAcids::spec_from_amounts(
                        amounts.subrange(0, 9),
                    ),
                    non_essential_amino_acids: NonEssentialAminoAcids::spec_from_amounts(
                        amounts.subrange(9, 20),
                    ),
                },
                fats: Fats::spec_from_amounts(amounts.subrange(20, 23)),
                carbohydrates: Carbohydrates::spec_from_amounts(amounts.subrange(23, 27)),
            },
            micronutrients: Micronutrients {
                vitamins: Vitamins::spec_from_amounts(amounts.subrange(27, 41)),
                minerals: Minerals::spec_from_amounts(amounts.subrange(41, 51)),
            },
        }
    }

    /// Builds the serving with the given header from the amounts of its
    /// nutrients.
    pub(crate) fn from_amounts(
        default_amount: u32,
        default_unit: Unit,
        kilocalories: u32,
        amounts: &Vec<u32>,
    ) -> (info: NutritionalInfo)
        requires
            amounts.len() >= NUTRIENTS,
        ensures
            info == NutritionalInfo::spec_from_amounts(
                default_amount,
                default_unit,
                kilocalories,
                amounts@,
            ),
    {
        NutritionalInfo {
            default_amount,
            default_unit,
            kilocalories,
            macronutrients: Macronutrients {
                proteins: Proteins {
                    essential_amino_acids: EssentialAminoAcids::from_amounts(amounts, 0),
                    non_essential_amino_acids: NonEssentialAminoAcids::from_amounts(amounts, 9),
                },
                fats: Fats::from_amounts(amounts, 20),
                carbohydrates: Carbohydrates::from_amounts(amounts, 23),
            },
            micronutrients: Micronutrients {
                vitamins: Vitamins::from_amounts(amounts, 27),
                minerals: Minerals::from_amounts(amounts, 41),
            },
        }
    }

    /// A serving is read back from its own header and nutrient amounts.
    pub proof fn lemma_amounts_round_trip(info: NutritionalInfo)
        ensures
            info.spec_nutrient_amounts().len() == NUTRIENTS,
            NutritionalInfo::spec_from_amounts(
                info.default_amount,
                info.default_unit,
                info.kilocalories,
                info.spec_nutrient_amounts(),
            ) == info,
    {
        let all = info.spec_nutrient_amounts();
        let macros = info.macronutrients;
        let micros = info.micronutrients;
        assert(all.subrange(0, 9) =~= macros.proteins.essential_amino_acids.spec_amounts());
        assert(all.subrange(9, 20) =~= macros.proteins.non_essential_amino_acids.spec_amounts());
        assert(all.subrange(20, 23) =~= macros.fats.spec_amounts());
        assert(all.subrange(23, 27) =~= macros.carbohydrates.spec_amounts());
        assert(all.subrange(27, 41) =~= micros.vitamins.spec_amounts());
        assert(all.subrange(41, 51) =~= micros.minerals.spec_amounts());
    }
}

} // verus!
