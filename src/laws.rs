use vstd::prelude::*;

use crate::category::Goal;
use crate::estimator::{NutrientCalculator, Nutrition, NUTRITION_SCALE};
use crate::tables::{age_centi, goal_centi, is_lean_fraction, lean_milli, stress_milli};

verus! {

/// The two calculators agree on every input but the goal.
pub open spec fn same_but_goal(a: NutrientCalculator, b: NutrientCalculator) -> bool {
    &&& a.sex == b.sex
    &&& a.body_fat == b.body_fat
    &&& a.daily_activity_score == b.daily_activity_score
    &&& a.age == b.age
    &&& a.stress_level == b.stress_level
}

/// Lean weight is total weight times one of seven fixed fractions, each in (0, 1],
/// so lean weight never exceeds total weight.
pub proof fn lemma_lean_within_total(c: NutrientCalculator, n: Nutrition)
    requires
        c.produces(n),
    ensures
        is_lean_fraction(lean_milli(c.sex, c.body_fat)),
        n.lean_weight == lean_milli(c.sex, c.body_fat) * (NUTRITION_SCALE / 1000),
        0 < n.lean_weight <= NUTRITION_SCALE,
{
}

/// Two estimates of the same inputs are the same estimate.
pub proof fn lemma_estimate_deterministic(
    a: NutrientCalculator,
    b: NutrientCalculator,
    ra: Nutrition,
    rb: Nutrition,
)
    requires
        a == b,
        a.produces(ra),
        b.produces(rb),
    ensures
        ra == rb,
{
}

/// With every other input fixed, fat loss asks for fewer calories than maintenance,
/// and maintenance for fewer than muscle gain.
pub proof fn lemma_goal_orders_calories(
    loss: NutrientCalculator,
    keep: NutrientCalculator,
    gain: NutrientCalculator,
    r_loss: Nutrition,
    r_keep: Nutrition,
    r_gain: Nutrition,
)
    requires
        loss.goal == Goal::FatLoss,
        keep.goal == Goal::Maintain,
        gain.goal == Goal::MuscleGain,
        same_but_goal(loss, keep),
        same_but_goal(keep, gain),
        loss.produces(r_loss),
        keep.produces(r_keep),
        gain.produces(r_gain),
    ensures
        r_loss.calories < r_keep.calories < r_gain.calories,
{
    let lean = lean_milli(keep.sex, keep.body_fat);
    let energy = 27 + keep.daily_activity_score;
    let a = age_centi(keep.age);
    let s = stress_milli(keep.stress_level);
    assert(lean * energy * a * s > 0) by (nonlinear_arith)
        requires
            lean > 0,
            energy > 0,
            a > 0,
            s > 0,
    ;
    let k = lean * energy * a * s;
    assert(k * 85 < k * 100 < k * 115) by (nonlinear_arith)
        requires
            k > 0,
    ;
    assert(goal_centi(loss.goal) == 85 && goal_centi(keep.goal) == 100 && goal_centi(gain.goal)
        == 115);
}

} // verus!
