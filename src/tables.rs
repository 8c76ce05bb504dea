use vstd::prelude::*;

use crate::category::{Goal, Sex};

verus! {

/// Lean fractions are given in thousandths of total weight.
pub const LEAN_SCALE: u32 = 1000;

/// Age factors are given in hundredths.
pub const AGE_SCALE: u32 = 100;

/// Stress factors are given in thousandths.
pub const STRESS_SCALE: u32 = 1000;

/// Goal factors are given in hundredths.
pub const GOAL_SCALE: u32 = 100;

/// Protein and fat ratios are given in tenths of a gram per unit of lean weight.
pub const MACRO_SCALE: u32 = 10;

/// Lean fraction (thousandths) of a male with the given body-fat percentage.
pub open spec fn male_lean_milli(body_fat: u32) -> int {
    if body_fat <= 11 {
        900
    } else if body_fat <= 14 {
        865
    } else if body_fat <= 19 {
        825
    } else if body_fat <= 24 {
        775
    } else if body_fat <= 29 {
        725
    } else if body_fat <= 34 {
        675
    } else {
        600
    }
}

/// Lean fraction (thousandths) of a female with the given body-fat percentage.
pub open spec fn female_lean_milli(body_fat: u32) -> int {
    if body_fat <= 14 {
        900
    } else if body_fat <= 18 {
        865
    } else if body_fat <= 21 {
        825
    } else if body_fat <= 26 {
        775
    } else if body_fat <= 31 {
        725
    } else if body_fat <= 36 {
        675
    } else {
        600
    }
}

/// Lean fraction (thousandths) from the table of the given sex.
pub open spec fn lean_milli(sex: Sex, body_fat: u32) -> int {
    match sex {
        Sex::Male => male_lean_milli(body_fat),
        Sex::Female => female_lean_milli(body_fat),
    }
}

/// The seven fractions that a body-fat bracket can select.
pub open spec fn is_lean_fraction(f: int) -> bool {
    f == 900 || f == 865 || f == 825 || f == 775 || f == 725 || f == 675 || f == 600
}

/// Age factor (hundredths).
pub open spec fn age_centi(age: u32) -> int {
    if age <= 24 {
        100
    } else if age <= 34 {
        97
    } else if age <= 44 {
        94
    } else if age <= 54 {
        91
    } else if age <= 64 {
        88
    } else {
        84
    }
}

/// Stress factor (thousandths); every level outside one to four takes the last value.
pub open spec fn stress_milli(stress_level: u32) -> int {
    if stress_level == 1 {
        1065
    } else if stress_level == 2 {
        1130
    } else if stress_level == 3 {
        1195
    } else if stress_level == 4 {
        1260
    } else {
        1325
    }
}

/// Goal factor (hundredths).
pub open spec fn goal_centi(goal: Goal) -> int {
    match goal {
        Goal::FatLoss => 85,
        Goal::Maintain => 100,
        Goal::MuscleGain => 115,
    }
}

/// Protein grams (tenths) per unit of lean weight.
pub open spec fn protein_deci(sex: Sex, goal: Goal) -> int {
    match (sex, goal) {
        (Sex::Male, Goal::MuscleGain) => 15,
        (Sex::Male, Goal::Maintain) => 20,
        (Sex::Male, Goal::FatLoss) => 30,
        (Sex::Female, Goal::MuscleGain) => 10,
        (Sex::Female, Goal::Maintain) => 15,
        (Sex::Female, Goal::FatLoss) => 20,
    }
}

/// Fat grams (tenths) per unit of lean weight.
pub open spec fn fat_deci(sex: Sex, goal: Goal) -> int {
    match (sex, goal) {
        (Sex::Male, Goal::MuscleGain) => 10,
        (Sex::Male, Goal::Maintain) => 9,
        (Sex::Male, Goal::FatLoss) => 8,
        (Sex::Female, Goal::MuscleGain) => 15,
        (Sex::Female, Goal::Maintain) => 12,
        (Sex::Female, Goal::FatLoss) => 10,
    }
}

/// Picks the male body-fat bracket.
pub fn male_lean_fraction(body_fat: u32) -> (r: u32)
    ensures
        r == male_lean_milli(body_fat),
{
    if body_fat <= 11 {
        900
    } else if body_fat <= 14 {
        865
    } else if body_fat <= 19 {
        825
    } else if body_fat <= 24 {
        775
    } else if body_fat <= 29 {
        725
    } else if body_fat <= 34 {
        675
    } else {
        600
    }
}

/// Picks the female body-fat bracket.
pub fn female_lean_fraction(body_fat: u32) -> (r: u32)
    ensures
        r == female_lean_milli(body_fat),
{
    if body_fat <= 14 {
        900
    } else if body_fat <= 18 {
        865
    } else if body_fat <= 21 {
        825
    } else if body_fat <= 26 {
        775
    } else if body_fat <= 31 {
        725
    } else if body_fat <= 36 {
        675
    } else {
        600
    }
}

/// Picks the body-fat bracket of the given sex's table.
pub fn lean_fraction(sex: Sex, body_fat: u32) -> (r: u32)
    ensures
        r == lean_milli(sex, body_fat),
        is_lean_fraction(r as int),
        0 < r <= LEAN_SCALE,
{
    match sex {
        Sex::Male => male_lean_fraction(body_fat),
        Sex::Female => female_lean_fraction(body_fat),
    }
}

/// Picks the age bracket.
pub fn age_factor(age: u32) -> (r: u32)
    ensures
        r == age_centi(age),
{
    if age <= 24 {
        100
    } else if age <= 34 {
        97
    } else if age <= 44 {
        94
    } else if age <= 54 {
        91
    } else if age <= 64 {
        88
    } else {
        84
    }
}

/// Picks the stress multiplier.
pub fn stress_factor(stress_level: u32) -> (r: u32)
    ensures
        r == stress_milli(stress_level),
{
    if stress_level == 1 {
        1065
    } else if stress_level == 2 {
        1130
    } else if stress_level == 3 {
        1195
    } else if stress_level == 4 {
        1260
    } else {
        1325
    }
}

/// Picks the goal multiplier.
pub fn goal_factor(goal: Goal) -> (r: u32)
    ensures
        r == goal_centi(goal),
{
    match goal {
        Goal::FatLoss => 85,
        Goal::Maintain => 100,
        Goal::MuscleGain => 115,
    }
}

/// Protein and fat ratios (tenths) for a male.
pub fn male_macro_ratios(goal: Goal) -> (r: (u32, u32))
    ensures
        r.0 == protein_deci(Sex::Male, goal),
        r.1 == fat_deci(Sex::Male, goal),
{
    match goal {
        Goal::MuscleGain => (15, 10),
        Goal::Maintain => (20, 9),
        Goal::FatLoss => (30, 8),
    }
}

/// Protein and fat ratios (tenths) for a female.
pub fn female_macro_ratios(goal: Goal) -> (r: (u32, u32))
    ensures
        r.0 == protein_deci(Sex::Female, goal),
        r.1 == fat_deci(Sex::Female, goal),
{
    match goal {
        Goal::MuscleGain => (10, 15),
        Goal::Maintain => (15, 12),
        Goal::FatLoss => (20, 10),
    }
}

/// Protein and fat ratios (tenths) from the sex-by-goal table.
pub fn macro_ratios(sex: Sex, goal: Goal) -> (r: (u32, u32))
    ensures
        r.0 == protein_deci(sex, goal),
        r.1 == fat_deci(sex, goal),
{
    match sex {
        Sex::Male => male_macro_ratios(goal),
        Sex::Female => female_macro_ratios(goal),
    }
}

} // verus!
