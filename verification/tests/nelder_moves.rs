use fortnightly::nelder::{select_move, Replacement, ScoreComparisons, StepDecision};

// Builds the comparison outcomes exactly as a host evaluates them on its
// floating-point scores; any NaN makes every comparison involving it false.
fn comparisons(
    best: f32,
    second_worst: f32,
    worst: f32,
    reflected: f32,
    expanded: f32,
    outside: f32,
    inside: f32,
) -> ScoreComparisons {
    ScoreComparisons {
        best_le_reflected: best <= reflected,
        reflected_lt_second_worst: reflected < second_worst,
        reflected_lt_best: reflected < best,
        expanded_lt_reflected: expanded < reflected,
        reflected_le_expanded: reflected <= expanded,
        second_worst_le_reflected: second_worst <= reflected,
        reflected_lt_worst: reflected < worst,
        reflected_ge_worst: reflected >= worst,
        outside_le_reflected: outside <= reflected,
        outside_gt_reflected: outside > reflected,
        inside_lt_worst: inside < worst,
        reflected_lt_inside: reflected < inside,
        inside_ge_worst: inside >= worst,
    }
}

fn decide(
    best: f32,
    second_worst: f32,
    worst: f32,
    reflected: f32,
    expanded: f32,
    outside: f32,
    inside: f32,
) -> StepDecision {
    select_move(&comparisons(
        best,
        second_worst,
        worst,
        reflected,
        expanded,
        outside,
        inside,
    ))
}

#[test]
fn a_middling_reflection_replaces_the_worst_vertex() {
    // best <= reflected < second_worst
    let d = decide(1.0, 3.0, 5.0, 2.0, 10.0, 10.0, 10.0);
    assert_eq!(d.replacement, Replacement::Reflected);
    assert!(!d.shrink);
}

#[test]
fn an_expansion_that_improves_on_the_reflection_wins() {
    let d = decide(1.0, 3.0, 5.0, 0.5, 0.2, 10.0, 10.0);
    assert_eq!(d.replacement, Replacement::Expanded);
    assert!(!d.shrink);
}

#[test]
fn a_failed_expansion_falls_back_to_the_reflection() {
    let d = decide(1.0, 3.0, 5.0, 0.5, 0.7, 10.0, 10.0);
    assert_eq!(d.replacement, Replacement::Reflected);
    assert!(!d.shrink);
}

#[test]
fn a_helpful_outside_contraction_is_accepted() {
    // second_worst <= reflected < worst and outside <= reflected
    let d = decide(1.0, 3.0, 5.0, 4.0, 10.0, 3.5, 10.0);
    assert_eq!(d.replacement, Replacement::ContractedOutside);
    assert!(!d.shrink);
}

#[test]
fn a_helpful_inside_contraction_is_accepted() {
    // reflected >= worst, inside < worst, outside <= reflected
    let d = decide(1.0, 3.0, 5.0, 6.0, 10.0, 5.0, 4.5);
    assert_eq!(d.replacement, Replacement::ContractedInside);
    assert!(!d.shrink);
}

#[test]
fn a_worsening_outside_contraction_forces_a_shrink() {
    // reflected sat between second_worst and worst but outside > reflected
    let d = decide(1.0, 3.0, 5.0, 4.0, 10.0, 4.5, 10.0);
    assert_eq!(d.replacement, Replacement::Keep);
    assert!(d.shrink);
}

#[test]
fn a_hopeless_iteration_forces_a_shrink() {
    // both the reflected and the inside score are no better than the worst
    let d = decide(1.0, 3.0, 5.0, 7.0, 10.0, 8.0, 8.0);
    assert_eq!(d.replacement, Replacement::Keep);
    assert!(d.shrink);
}

#[test]
fn a_nan_inside_score_suppresses_the_shrink() {
    // with a real inside score of 8.0 this shrinks (see above); the NaN
    // falls through the not-a-true-minimum comparison and both of its
    // comparisons come out false
    let d = decide(1.0, 3.0, 5.0, 7.0, 10.0, 8.0, f32::NAN);
    assert_eq!(d.replacement, Replacement::Keep);
    assert!(!d.shrink);
}

#[test]
fn a_nan_reflected_score_still_lets_a_bad_inside_score_shrink() {
    // reflected-< -inside is false for NaN, so the inside score is picked
    // and compared against the worst on its own
    let d = decide(1.0, 3.0, 5.0, f32::NAN, 10.0, 8.0, 9.0);
    assert_eq!(d.replacement, Replacement::Keep);
    assert!(d.shrink);
}

#[test]
fn a_nan_reflected_score_accepts_no_candidate() {
    let d = decide(1.0, 3.0, 5.0, f32::NAN, 0.1, 0.1, 0.1);
    assert_eq!(d.replacement, Replacement::Keep);
    assert!(!d.shrink);
}
