//! Classification of a year-end score into a performance tier.

use vstd::prelude::*;

verus! {

/// The performance tier derived from a score. `NotUpdated` is never stored:
/// it is only the default returned when no tier exists for an identifier.
#[derive(Clone, Copy, Debug, PartialEq, Eq, Structural)]
pub enum Level {
    Excellent,
    Good,
    Average,
    Fail,
    NotUpdated,
}

/// A score is valid when it lies in `1..=10`; anything else is refused
/// before classification is attempted.
pub open spec fn valid_score(point: u32) -> bool {
    1 <= point <= 10
}

/// The tier table over the valid domain: `[8, 10]` is `Excellent`,
/// `[7, 8)` is `Good`, `[5, 7)` is `Average`, `[1, 5)` is `Fail`.
pub open spec fn classify_spec(point: u32) -> Level
    recommends
        valid_score(point),
{
    if 8 <= point {
        Level::Excellent
    } else if 7 <= point {
        Level::Good
    } else if 5 <= point {
        Level::Average
    } else {
        Level::Fail
    }
}

/// Maps a valid score to its tier, exactly per the tier table.
pub fn classify(point: u32) -> (level: Level)
    requires
        valid_score(point),
    ensures
        level == classify_spec(point),
{
    if 8 <= point && point <= 10 {
        Level::Excellent
    } else if 7 <= point && point < 8 {
        Level::Good
    } else if 5 <= point && point < 7 {
        Level::Average
    } else {
        Level::Fail
    }
}

/// Every valid score classifies to exactly one of the four persisted tiers,
/// with exact boundaries; the `NotUpdated` sentinel is never the result of
/// classification.
pub proof fn lemma_classify_total(point: u32)
    requires
        valid_score(point),
    ensures
        classify_spec(point) != Level::NotUpdated,
        classify_spec(point) == Level::Excellent <==> 8 <= point <= 10,
        classify_spec(point) == Level::Good <==> point == 7,
        classify_spec(point) == Level::Average <==> 5 <= point <= 6,
        classify_spec(point) == Level::Fail <==> 1 <= point <= 4,
{
}

} // verus!
