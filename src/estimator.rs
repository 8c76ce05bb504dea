use vstd::prelude::*;

use crate::category::{goal_of, parse_goal, parse_sex, sex_of, CategoryError, Goal, Sex};
use crate::tables::{
    age_centi, age_factor, fat_deci, goal_centi, goal_factor, lean_fraction, lean_milli,
    macro_ratios, protein_deci, stress_factor, stress_milli,
};

verus! {

/// Every quantity of a `Nutrition` is a numerator over this denominator, per unit of
/// total weight: a value `v` stands for `total_weight * v / NUTRITION_SCALE`.
pub const NUTRITION_SCALE: i128 = 40_000_000_000;

/// Largest calorie numerator that `calculate_macros` takes.
pub const CALORIE_LIMIT: u128 = 1_000_000_000_000_000_000_000_000_000;

/// The inputs of one estimate, apart from total weight, which scales every result.
#[derive(Clone, Copy, Debug, PartialEq, Eq, Structural)]
pub struct NutrientCalculator {
    pub sex: Sex,
    pub body_fat: u32,
    pub daily_activity_score: u32,
    pub age: u32,
    pub stress_level: u32,
    pub goal: Goal,
}

/// Lean weight, calories, protein, fat and carbohydrate, each exact as a numerator
/// over `NUTRITION_SCALE` per unit of total weight. Carbohydrate may be negative.
#[derive(Clone, Copy, Debug, PartialEq, Eq, Structural)]
pub struct Nutrition {
    pub lean_weight: i128,
    pub calories: i128,
    pub protein: i128,
    pub fat: i128,
    pub carbs: i128,
}

/// Calories in units of 1e-10 per unit of total weight, from a lean fraction in
/// thousandths: lean times (27 + activity), then the age, stress and goal factors.
pub open spec fn calories_of(
    lean: int,
    daily_activity_score: u32,
    age: u32,
    stress_level: u32,
    goal: Goal,
) -> int {
    lean * (27 + daily_activity_score) * age_centi(age) * stress_milli(stress_level)
        * goal_centi(goal)
}

/// Carbohydrate over `NUTRITION_SCALE`: what is left of the calories once protein
/// (4 per gram) and fat (9 per gram) are paid for, at 4 per gram.
pub open spec fn carbs_of(lean: int, calories: int, sex: Sex, goal: Goal) -> int {
    calories - 1_000_000 * lean * (4 * protein_deci(sex, goal) + 9 * fat_deci(sex, goal))
}

impl NutrientCalculator {
    /// Lean fraction of total weight, in thousandths.
    pub open spec fn spec_lean(self) -> int {
        lean_milli(self.sex, self.body_fat)
    }

    /// Calories in units of 1e-10 per unit of total weight.
    pub open spec fn spec_calories(self) -> int {
        calories_of(
            self.spec_lean(),
            self.daily_activity_score,
            self.age,
            self.stress_level,
            self.goal,
        )
    }

    /// What an estimate for these inputs is, over `NUTRITION_SCALE`.
    pub open spec fn produces(self, r: Nutrition) -> bool {
        &&& r.lean_weight == 40_000_000 * self.spec_lean()
        &&& r.calories == 4 * self.spec_calories()
        &&& r.protein == 4_000_000 * self.spec_lean() * protein_deci(self.sex, self.goal)
        &&& r.fat == 4_000_000 * self.spec_lean() * fat_deci(self.sex, self.goal)
        &&& r.carbs == carbs_of(self.spec_lean(), self.spec_calories(), self.sex, self.goal)
    }

    pub fn new(
        sex: Sex,
        body_fat: u32,
        daily_activity_score: u32,
        age: u32,
        stress_level: u32,
        goal: Goal,
    ) -> (r: Self)
        ensures
            r.sex == sex,
            r.body_fat == body_fat,
            r.daily_activity_score == daily_activity_score,
            r.age == age,
            r.stress_level == stress_level,
            r.goal == goal,
    {
        NutrientCalculator { sex, body_fat, daily_activity_score, age, stress_level, goal }
    }

    /// Lean fraction of total weight, in thousandths.
    pub fn calculate_clean_weight(&self) -> (r: u32)
        ensures
            r == self.spec_lean(),
            0 < r <= 1000,
    {
        lean_fraction(self.sex, self.body_fat)
    }

    /// Calories in units of 1e-10 per unit of total weight, for a lean fraction in
    /// thousandths.
    pub fn calculate_calories(&self, clean_weight: u32) -> (r: u128)
        ensures
            r == calories_of(
                clean_weight as int,
                self.daily_activity_score,
                self.age,
                self.stress_level,
                self.goal,
            ),
    {
        let energy: u128 = 27 + self.daily_activity_score as u128;
        let a: u128 = age_factor(self.age) as u128;
        let s: u128 = stress_factor(self.stress_level) as u128;
        let g: u128 = goal_factor(self.goal) as u128;
        let c: u128 = clean_weight as u128;
        assert(c * energy <= 0x1_0000_0000u128 * 0x2_0000_0000u128) by (nonlinear_arith)
            requires
                c < 0x1_0000_0000u128,
                energy < 0x2_0000_0000u128,
        ;
        let mut calories: u128 = c * energy;
        assert(calories * a <= 0x1_0000_0000u128 * 0x2_0000_0000u128 * 100) by (nonlinear_arith)
            requires
                calories <= 0x1_0000_0000u128 * 0x2_0000_0000u128,
                a <= 100,
        ;
        calories = calories * a;
        assert(calories * s <= 0x1_0000_0000u128 * 0x2_0000_0000u128 * 100 * 1325) by (nonlinear_arith)
            requires
                calories <= 0x1_0000_0000u128 * 0x2_0000_0000u128 * 100,
                s <= 1325,
        ;
        calories = calories * s;
        assert(calories * g <= 0x1_0000_0000u128 * 0x2_0000_0000u128 * 100 * 1325 * 115) by (nonlinear_arith)
            requires
                calories <= 0x1_0000_0000u128 * 0x2_0000_0000u128 * 100 * 1325,
                g <= 115,
        ;
        calories = calories * g;
        calories
    }

    /// Protein, fat and carbohydrate over `NUTRITION_SCALE`, for a lean fraction in
    /// thousandths and calories in units of 1e-10, both per unit of total weight.
    pub fn calculate_macros(&self, clean_weight: u32, calories: u128) -> (r: (i128, i128, i128))
        requires
            calories <= CALORIE_LIMIT,
        ensures
            r.0 == 4_000_000 * clean_weight * protein_deci(self.sex, self.goal),
            r.1 == 4_000_000 * clean_weight * fat_deci(self.sex, self.goal),
            r.2 == carbs_of(clean_weight as int, calories as int, self.sex, self.goal),
    {
        let (p, f) = macro_ratios(self.sex, self.goal);
        let lean: i128 = clean_weight as i128;
        assert(0 <= lean * p <= 0x1_0000_0000 * 30 && 0 <= lean * f <= 0x1_0000_0000 * 15)
            by (nonlinear_arith)
            requires
                0 <= lean < 0x1_0000_0000,
                0 <= p <= 30,
                0 <= f <= 15,
        ;
        assert(0 <= lean * (4 * p + 9 * f) <= 0x1_0000_0000 * 255) by (nonlinear_arith)
            requires
                0 <= lean < 0x1_0000_0000,
                0 <= p <= 30,
                0 <= f <= 15,
        ;
        let protein: i128 = 4_000_000 * lean * p as i128;
        let fat: i128 = 4_000_000 * lean * f as i128;
        let weighted: i128 = lean * (4 * p as i128 + 9 * f as i128);
        let spent: i128 = 1_000_000 * weighted;
        assert(spent == 1_000_000 * lean * (4 * p + 9 * f)) by (nonlinear_arith)
            requires
                weighted == lean * (4 * p + 9 * f),
                spent == 1_000_000 * weighted,
        ;
        let carbs: i128 = calories as i128 - spent;
        (protein, fat, carbs)
    }

    /// Lean weight, calories and macros in one pass.
    pub fn calculate_nutrition(&self) -> (r: Nutrition)
        ensures
            self.produces(r),
    {
        let clean = self.calculate_clean_weight();
        let calories = self.calculate_calories(clean);
        let (protein, fat, carbs) = self.calculate_macros(clean, calories);
        Nutrition {
            lean_weight: 40_000_000 * clean as i128,
            calories: 4 * calories as i128,
            protein,
            fat,
            carbs,
        }
    }
}

/// Reads the two categorical tokens, then estimates; a token outside the recognised
/// words is refused before any estimate is made, the sex token first.
pub fn calculate_nutrition(
    sex: &str,
    body_fat: u32,
    daily_activity_score: u32,
    age: u32,
    stress_level: u32,
    goal: &str,
) -> (r: Result<Nutrition, CategoryError>)
    ensures
        match (sex_of(sex@), goal_of(goal@)) {
            (Some(s), Some(g)) => r matches Ok(n) && (NutrientCalculator {
                sex: s,
                body_fat,
                daily_activity_score,
                age,
                stress_level,
                goal: g,
            }).produces(n),
            (Some(_), None) => r == Err::<Nutrition, CategoryError>(CategoryError::InvalidGoal),
            (None, _) => r == Err::<Nutrition, CategoryError>(CategoryError::InvalidSex),
        },
{
    let s = match parse_sex(sex) {
        Ok(s) => s,
        Err(e) => {
            return Err(e);
        },
    };
    let g = match parse_goal(goal) {
        Ok(g) => g,
        Err(e) => {
            return Err(e);
        },
    };
    let calculator = NutrientCalculator::new(s, body_fat, daily_activity_score, age, stress_level, g);
    let n = calculator.calculate_nutrition();
    Ok(n)
}

} // verus!
