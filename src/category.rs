use vstd::prelude::*;

verus! {

/// Biological sex, which selects the body-fat bracket table and the macro table.
#[derive(Clone, Copy, Debug, PartialEq, Eq, Structural)]
pub enum Sex {
    Male,
    Female,
}

/// Dietary objective, which scales the calorie target and picks the macro ratios.
#[derive(Clone, Copy, Debug, PartialEq, Eq, Structural)]
pub enum Goal {
    FatLoss,
    Maintain,
    MuscleGain,
}

/// Why a categorical token was not accepted.
#[derive(Clone, Copy, Debug, PartialEq, Eq, Structural)]
pub enum CategoryError {
    InvalidSex,
    InvalidGoal,
}

/// The sex that a token names, if any.
pub open spec fn sex_of(token: Seq<char>) -> Option<Sex> {
    if token == "MALE"@ {
        Some(Sex::Male)
    } else if token == "FEMALE"@ {
        Some(Sex::Female)
    } else {
        None
    }
}

/// The goal that a token names, if any.
pub open spec fn goal_of(token: Seq<char>) -> Option<Goal> {
    if token == "FAT_LOSS"@ {
        Some(Goal::FatLoss)
    } else if token == "MAINTAIN"@ {
        Some(Goal::Maintain)
    } else if token == "MUSCLE_GAIN"@ {
        Some(Goal::MuscleGain)
    } else {
        None
    }
}

fn same_text(a: &str, b: &str) -> (r: bool)
    ensures
        r == (a@ == b@),
{
    a.to_owned() == b.to_owned()
}

/// Reads a sex token; anything but the two recognised words is refused.
pub fn parse_sex(token: &str) -> (r: Result<Sex, CategoryError>)
    ensures
        r == match sex_of(token@) {
            Some(s) => Ok(s),
            None => Err(CategoryError::InvalidSex),
        },
{
    if same_text(token, "MALE") {
        Ok(Sex::Male)
    } else if same_text(token, "FEMALE") {
        Ok(Sex::Female)
    } else {
        Err(CategoryError::InvalidSex)
    }
}

/// Reads a goal token; anything but the three recognised words is refused.
pub fn parse_goal(token: &str) -> (r: Result<Goal, CategoryError>)
    ensures
        r == match goal_of(token@) {
            Some(g) => Ok(g),
            None => Err(CategoryError::InvalidGoal),
        },
{
    if same_text(token, "FAT_LOSS") {
        Ok(Goal::FatLoss)
    } else if same_text(token, "MAINTAIN") {
        Ok(Goal::Maintain)
    } else if same_text(token, "MUSCLE_GAIN") {
        Ok(Goal::MuscleGain)
    } else {
        Err(CategoryError::InvalidGoal)
    }
}

} // verus!
