use nutrient_calculator::category::{parse_goal, parse_sex, CategoryError, Goal, Sex};
use nutrient_calculator::estimator::{calculate_nutrition, NutrientCalculator, Nutrition, NUTRITION_SCALE};
use nutrient_calculator::tables::{
    age_factor, female_lean_fraction, goal_factor, lean_fraction, macro_ratios,
    male_lean_fraction, stress_factor,
};

fn at_weight(value: i128, total_weight: f64) -> f64 {
    total_weight * value as f64 / NUTRITION_SCALE as f64
}

fn close(a: f64, b: f64) -> bool {
    (a - b).abs() < 1e-9 * b.abs().max(1.0)
}

#[test]
fn male_bracket_boundaries() {
    assert_eq!(male_lean_fraction(0), 900);
    assert_eq!(male_lean_fraction(11), 900);
    assert_eq!(male_lean_fraction(12), 865);
    assert_eq!(male_lean_fraction(14), 865);
    assert_eq!(male_lean_fraction(15), 825);
    assert_eq!(male_lean_fraction(20), 775);
    assert_eq!(male_lean_fraction(25), 725);
    assert_eq!(male_lean_fraction(34), 675);
    assert_eq!(male_lean_fraction(35), 600);
    assert_eq!(male_lean_fraction(1000), 600);
    assert_eq!(male_lean_fraction(u32::MAX), 600);
}

#[test]
fn female_bracket_boundaries() {
    assert_eq!(female_lean_fraction(14), 900);
    assert_eq!(female_lean_fraction(15), 865);
    assert_eq!(female_lean_fraction(18), 865);
    assert_eq!(female_lean_fraction(19), 825);
    assert_eq!(female_lean_fraction(21), 825);
    assert_eq!(female_lean_fraction(22), 775);
    assert_eq!(female_lean_fraction(27), 725);
    assert_eq!(female_lean_fraction(36), 675);
    assert_eq!(female_lean_fraction(37), 600);
    assert_eq!(lean_fraction(Sex::Female, 1000), 600);
    assert_eq!(lean_fraction(Sex::Male, 11), 900);
    assert_eq!(lean_fraction(Sex::Male, 12), 865);
}

#[test]
fn stress_boundaries() {
    assert_eq!(stress_factor(1), 1065);
    assert_eq!(stress_factor(2), 1130);
    assert_eq!(stress_factor(3), 1195);
    assert_eq!(stress_factor(4), 1260);
    assert_eq!(stress_factor(5), 1325);
    assert_eq!(stress_factor(0), 1325);
}

#[test]
fn age_boundaries() {
    assert_eq!(age_factor(0), 100);
    assert_eq!(age_factor(24), 100);
    assert_eq!(age_factor(25), 97);
    assert_eq!(age_factor(35), 94);
    assert_eq!(age_factor(45), 91);
    assert_eq!(age_factor(55), 88);
    assert_eq!(age_factor(64), 88);
    assert_eq!(age_factor(65), 84);
    assert_eq!(age_factor(200), 84);
}

#[test]
fn goal_and_macro_tables() {
    assert_eq!(goal_factor(Goal::FatLoss), 85);
    assert_eq!(goal_factor(Goal::Maintain), 100);
    assert_eq!(goal_factor(Goal::MuscleGain), 115);
    assert_eq!(macro_ratios(Sex::Male, Goal::MuscleGain), (15, 10));
    assert_eq!(macro_ratios(Sex::Male, Goal::Maintain), (20, 9));
    assert_eq!(macro_ratios(Sex::Male, Goal::FatLoss), (30, 8));
    assert_eq!(macro_ratios(Sex::Female, Goal::MuscleGain), (10, 15));
    assert_eq!(macro_ratios(Sex::Female, Goal::Maintain), (15, 12));
    assert_eq!(macro_ratios(Sex::Female, Goal::FatLoss), (20, 10));
}

#[test]
fn male_maintain_scenario() {
    let n = calculate_nutrition("MALE", 20, 5, 30, 2, "MAINTAIN").unwrap();
    assert_eq!(
        n,
        Nutrition {
            lean_weight: 31_000_000_000,
            calories: 1_087_331_200_000,
            protein: 62_000_000_000,
            fat: 27_900_000_000,
            carbs: 147_057_800_000,
        }
    );
    assert!(close(at_weight(n.lean_weight, 90.0), 69.75));
    assert!(close(at_weight(n.calories, 90.0), 69.75 * 32.0 * 0.97 * 1.13));
    assert!(close(at_weight(n.protein, 90.0), 139.5));
    assert!(close(at_weight(n.fat, 90.0), 62.775));
    let calories = at_weight(n.calories, 90.0);
    assert!(close(at_weight(n.carbs, 90.0), (calories - (139.5 * 4.0 + 62.775 * 9.0)) / 4.0));
}

#[test]
fn steps_compose() {
    let c = NutrientCalculator::new(Sex::Female, 30, 3, 50, 1, Goal::FatLoss);
    let clean = c.calculate_clean_weight();
    assert_eq!(clean, 725);
    let calories = c.calculate_calories(clean);
    assert_eq!(calories, 725 * 30 * 91 * 1065 * 85);
    let (protein, fat, carbs) = c.calculate_macros(clean, calories);
    assert_eq!(protein, 4_000_000 * 725 * 20);
    assert_eq!(fat, 4_000_000 * 725 * 10);
    assert_eq!(carbs, calories as i128 - 1_000_000 * 725 * (4 * 20 + 9 * 10));
    let n = c.calculate_nutrition();
    assert_eq!(n.lean_weight, 40_000_000 * 725);
    assert_eq!(n.calories, 4 * calories as i128);
    assert_eq!((n.protein, n.fat, n.carbs), (protein, fat, carbs));
}

#[test]
fn lean_never_exceeds_total() {
    for sex in [Sex::Male, Sex::Female] {
        for body_fat in [0u32, 11, 12, 14, 19, 24, 29, 36, 37, 100, 1000] {
            let n = NutrientCalculator::new(sex, body_fat, 0, 30, 1, Goal::Maintain)
                .calculate_nutrition();
            assert!(n.lean_weight > 0);
            assert!(n.lean_weight <= NUTRITION_SCALE);
            assert!(at_weight(n.lean_weight, 80.0) <= 80.0);
        }
    }
}

#[test]
fn estimate_is_deterministic() {
    let a = calculate_nutrition("FEMALE", 23, 4, 41, 3, "MUSCLE_GAIN").unwrap();
    let b = calculate_nutrition("FEMALE", 23, 4, 41, 3, "MUSCLE_GAIN").unwrap();
    assert_eq!(a, b);
    assert_eq!(at_weight(a.carbs, 61.5).to_bits(), at_weight(b.carbs, 61.5).to_bits());
}

#[test]
fn goal_orders_calories() {
    let loss = calculate_nutrition("MALE", 18, 2, 70, 7, "FAT_LOSS").unwrap();
    let keep = calculate_nutrition("MALE", 18, 2, 70, 7, "MAINTAIN").unwrap();
    let gain = calculate_nutrition("MALE", 18, 2, 70, 7, "MUSCLE_GAIN").unwrap();
    assert!(loss.calories < keep.calories);
    assert!(keep.calories < gain.calories);
    assert_eq!(loss.calories * 100, keep.calories * 85);
    assert_eq!(gain.calories * 100, keep.calories * 115);
}

#[test]
fn tokens_are_parsed() {
    assert_eq!(parse_sex("MALE"), Ok(Sex::Male));
    assert_eq!(parse_sex("FEMALE"), Ok(Sex::Female));
    assert_eq!(parse_goal("FAT_LOSS"), Ok(Goal::FatLoss));
    assert_eq!(parse_goal("MAINTAIN"), Ok(Goal::Maintain));
    assert_eq!(parse_goal("MUSCLE_GAIN"), Ok(Goal::MuscleGain));
}

#[test]
fn invalid_tokens_are_refused() {
    assert_eq!(parse_sex("OTHER"), Err(CategoryError::InvalidSex));
    assert_eq!(parse_sex("male"), Err(CategoryError::InvalidSex));
    assert_eq!(parse_sex(""), Err(CategoryError::InvalidSex));
    assert_eq!(parse_goal("BULK"), Err(CategoryError::InvalidGoal));
    assert_eq!(parse_goal("MAINTAIN "), Err(CategoryError::InvalidGoal));
    assert_eq!(
        calculate_nutrition("OTHER", 20, 5, 30, 2, "MAINTAIN"),
        Err(CategoryError::InvalidSex)
    );
    assert_eq!(
        calculate_nutrition("MALE", 20, 5, 30, 2, "CUT"),
        Err(CategoryError::InvalidGoal)
    );
    assert_eq!(
        calculate_nutrition("OTHER", 20, 5, 30, 2, "CUT"),
        Err(CategoryError::InvalidSex)
    );
}

#[test]
fn large_inputs_do_not_overflow() {
    let n = calculate_nutrition("MALE", u32::MAX, u32::MAX, u32::MAX, u32::MAX, "MUSCLE_GAIN")
        .unwrap();
    let calories: i128 = 600 * (27 + u32::MAX as i128) * 84 * 1325 * 115;
    assert_eq!(n.calories, 4 * calories);
    assert_eq!(n.carbs, calories - 1_000_000 * 600 * (4 * 15 + 9 * 10));
}
