//! The per-iteration decision core of the Nelder-Mead simplex minimizer.
//!
//! One iteration of the minimizer sorts the simplex by score, computes four
//! candidate scores from trial points (reflected, expanded, contracted
//! outside, contracted inside), and then walks a fixed ladder of
//! comparisons to decide which candidate, if any, replaces the worst vertex
//! and whether the whole simplex must shrink toward the best vertex.
//!
//! The scores themselves are floating-point values owned by the host
//! program. What this module owns is the ladder: it takes the outcome of
//! each comparison as the host computed it and returns the decision. Every
//! comparison is carried separately because a NaN score makes *every*
//! float comparison false, so one outcome cannot be derived from another;
//! carrying them as independent booleans reproduces the minimizer's
//! documented NaN behavior exactly.

use vstd::prelude::*;

verus! {

/// The outcomes of the score comparisons of one iteration, exactly as the
/// host evaluated them on its floating-point scores.
///
/// Naming: `best` is the lowest score after sorting, `second_worst` the
/// next-to-highest, `worst` the highest; `reflected`, `expanded`, `outside`
/// and `inside` are the scores of the four trial points. Each field holds
/// the literal result of the comparison written in its name; when a score
/// is NaN, every comparison involving it is false.
#[derive(Clone, Copy, PartialEq, Eq, Structural, Debug)]
pub struct ScoreComparisons {
    /// best <= reflected
    pub best_le_reflected: bool,
    /// reflected < second_worst
    pub reflected_lt_second_worst: bool,
    /// reflected < best
    pub reflected_lt_best: bool,
    /// expanded < reflected
    pub expanded_lt_reflected: bool,
    /// reflected <= expanded
    pub reflected_le_expanded: bool,
    /// second_worst <= reflected
    pub second_worst_le_reflected: bool,
    /// reflected < worst
    pub reflected_lt_worst: bool,
    /// reflected >= worst
    pub reflected_ge_worst: bool,
    /// outside <= reflected
    pub outside_le_reflected: bool,
    /// outside > reflected
    pub outside_gt_reflected: bool,
    /// inside < worst
    pub inside_lt_worst: bool,
    /// reflected < inside
    pub reflected_lt_inside: bool,
    /// inside >= worst
    pub inside_ge_worst: bool,
}

/// Which candidate ends the iteration in the worst vertex's slot.
#[derive(Clone, Copy, PartialEq, Eq, Structural, Debug)]
pub enum Replacement {
    /// No candidate was accepted; the worst vertex stays.
    Keep,
    /// The reflected point.
    Reflected,
    /// The expanded point.
    Expanded,
    /// The point contracted outside the simplex.
    ContractedOutside,
    /// The point contracted inside the simplex.
    ContractedInside,
}

/// What one iteration does to the simplex after scoring the trial points.
#[derive(Clone, Copy, PartialEq, Eq, Structural, Debug)]
pub struct StepDecision {
    /// The candidate that lands in the worst vertex's slot, if any.
    pub replacement: Replacement,
    /// Whether every vertex then moves halfway toward the best one.
    pub shrink: bool,
}

/// The reflected point is accepted when it is at least as good as the best
/// vertex but better than the second-worst one.
pub open spec fn reflect_applies(c: ScoreComparisons) -> bool {
    c.best_le_reflected && c.reflected_lt_second_worst
}

/// The expanded point is accepted when the reflected point beats the best
/// vertex and the expanded point beats the reflected one.
pub open spec fn expand_applies(c: ScoreComparisons) -> bool {
    c.reflected_lt_best && c.expanded_lt_reflected
}

/// When the reflected point beats the best vertex but the expanded point
/// does not improve on it, the reflected point is (re-)accepted.
pub open spec fn expand_falls_back_to_reflected(c: ScoreComparisons) -> bool {
    c.reflected_lt_best && c.reflected_le_expanded
}

/// The outside contraction is accepted when the reflected point sits
/// between the second-worst and worst scores and contracting does not make
/// it worse.
pub open spec fn contract_outside_applies(c: ScoreComparisons) -> bool {
    c.second_worst_le_reflected && c.reflected_lt_worst && c.outside_le_reflected
}

/// The inside contraction is accepted when the reflected point is no better
/// than the worst vertex, the inside point beats the worst vertex, and the
/// outside point did not beat the reflected one.
pub open spec fn contract_inside_applies(c: ScoreComparisons) -> bool {
    c.reflected_ge_worst && c.inside_lt_worst && c.outside_le_reflected
}

/// The replacement the ladder settles on. The branches are tried in the
/// order the minimizer applies them, a later acceptance overwriting an
/// earlier one, so the inside contraction has the last word and the
/// reflection of the first rung only stands when nothing after it fired.
pub open spec fn chosen_replacement(c: ScoreComparisons) -> Replacement {
    if contract_inside_applies(c) {
        Replacement::ContractedInside
    } else if contract_outside_applies(c) {
        Replacement::ContractedOutside
    } else if expand_applies(c) {
        Replacement::Expanded
    } else if expand_falls_back_to_reflected(c) {
        Replacement::Reflected
    } else if reflect_applies(c) {
        Replacement::Reflected
    } else {
        Replacement::Keep
    }
}

/// Whether the iteration ends in a shrink: either the reflected point sat
/// between the second-worst and worst scores but the outside contraction
/// was worse than it, or the better of the reflected and inside scores is
/// still no better than the worst vertex.
///
/// "Better of" mirrors the minimizer's literal `if reflected < inside
/// { reflected } else { inside }`: when the inside score is NaN, the
/// comparison is false, the NaN is picked, and the final `>= worst`
/// comparison on it is false again — a NaN inside score therefore
/// suppresses this disjunct instead of triggering it.
pub open spec fn shrink_applies(c: ScoreComparisons) -> bool {
    (c.second_worst_le_reflected && c.reflected_lt_worst && c.outside_gt_reflected) || (
    if c.reflected_lt_inside {
        c.reflected_ge_worst
    } else {
        c.inside_ge_worst
    })
}

/// The comparison outcomes for scores drawn from a totally ordered set:
/// what the host's floating-point comparisons yield whenever no score is
/// NaN.
pub open spec fn comparisons_of(
    best: int,
    second_worst: int,
    worst: int,
    reflected: int,
    expanded: int,
    outside: int,
    inside: int,
) -> ScoreComparisons {
    ScoreComparisons {
        best_le_reflected: best <= reflected,
        reflected_lt_second_worst: reflected < second_worst,
        reflected_lt_best: reflected < best,
        expanded_lt_reflected: expanded < reflected,
        reflected_le_expanded: reflected <= expanded,
        second_worst_le_reflected: second_worst <= reflected,
        reflected_lt_worst: reflected < worst,
        reflected_ge_worst: reflected >= worst,
        outside_le_reflected: outside <= reflected,
        outside_gt_reflected: outside > reflected,
        inside_lt_worst: inside < worst,
        reflected_lt_inside: reflected < inside,
        inside_ge_worst: inside >= worst,
    }
}

/// A shrink accepts no candidate: whenever the scores are totally ordered
/// (no NaN among them) and the simplex was sorted, an iteration whose
/// shrink condition holds leaves the worst vertex in place, so the shrink
/// is the iteration's only change. Only an inconsistent set of comparison
/// outcomes, as NaN scores can produce, can combine the two.
pub proof fn lemma_shrink_keeps_the_worst(
    best: int,
    second_worst: int,
    worst: int,
    reflected: int,
    expanded: int,
    outside: int,
    inside: int,
)
    requires
        best <= second_worst <= worst,
        shrink_applies(
            comparisons_of(best, second_worst, worst, reflected, expanded, outside, inside),
        ),
    ensures
        chosen_replacement(
            comparisons_of(best, second_worst, worst, reflected, expanded, outside, inside),
        ) == Replacement::Keep,
{
}

/// Decides one iteration of the minimizer from the comparison outcomes:
/// which candidate replaces the worst vertex, and whether the simplex then
/// shrinks toward the best one.
pub fn select_move(c: &ScoreComparisons) -> (d: StepDecision)
    ensures
        d.replacement == chosen_replacement(*c),
        d.shrink == shrink_applies(*c),
{
    let mut replacement = Replacement::Keep;
    if c.best_le_reflected && c.reflected_lt_second_worst {
        replacement = Replacement::Reflected;
    }
    if c.reflected_lt_best && c.expanded_lt_reflected {
        replacement = Replacement::Expanded;
    } else if c.reflected_lt_best && c.reflected_le_expanded {
        replacement = Replacement::Reflected;
    }
    if c.second_worst_le_reflected && c.reflected_lt_worst && c.outside_le_reflected {
        replacement = Replacement::ContractedOutside;
    }
    if c.reflected_ge_worst && c.inside_lt_worst && c.outside_le_reflected {
        replacement = Replacement::ContractedInside;
    }
    let reflected_or_inside_ge_worst = if c.reflected_lt_inside {
        c.reflected_ge_worst
    } else {
        c.inside_ge_worst
    };
    let shrink = (c.second_worst_le_reflected && c.reflected_lt_worst && c.outside_gt_reflected)
        || reflected_or_inside_ge_worst;
    StepDecision { replacement, shrink }
}

} // verus!
