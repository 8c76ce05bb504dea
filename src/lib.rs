// Lean body mass, daily calorie target and macronutrient split, computed exactly in
// integers per unit of total weight from bracket tables.
pub mod category;
pub mod estimator;
pub mod laws;
pub mod tables;
