use std::cell::RefCell;

use ezpz::solve::{
    max_or_zero, priority_levels, requests_up_to, residuals_satisfied, solve_by_priority,
    total_residual_dim,
};
use ezpz::{Constraint, DatumPoint};

const EPSILON: f64 = 1e-4;

fn within_tolerance(residuals: [f64; 3]) -> [bool; 3] {
    [
        residuals[0].abs() < EPSILON,
        residuals[1].abs() < EPSILON,
        residuals[2].abs() < EPSILON,
    ]
}

#[test]
fn test_is_satisfied_0() {
    let actual = residuals_satisfied(1, within_tolerance([1e-8, 44.0, 44.0]));
    let expected = true;
    assert_eq!(actual, expected);
}

#[test]
fn test_is_satisfied_1() {
    let actual = residuals_satisfied(2, within_tolerance([1e-8, 1e-8, 44.0]));
    let expected = true;
    assert_eq!(actual, expected);
}

#[test]
fn test_is_satisfied_2() {
    let actual = residuals_satisfied(3, within_tolerance([1e-8, 1e-8, 1e-8]));
    let expected = true;
    assert_eq!(actual, expected);
}

#[test]
fn test_is_unsatisfied_0() {
    let actual = residuals_satisfied(1, within_tolerance([44.0, 44.0, 44.0]));
    let expected = false;
    assert_eq!(actual, expected);
}

#[test]
fn test_is_unsatisfied_1() {
    let actual = residuals_satisfied(2, within_tolerance([1e-8, 44.0, 44.0]));
    let expected = false;
    assert_eq!(actual, expected);
}

#[test]
fn test_is_unsatisfied_2() {
    let actual = residuals_satisfied(3, within_tolerance([44.0, 1e-8, 1e-8]));
    let expected = false;
    assert_eq!(actual, expected);
}

#[test]
fn priority_levels_are_sorted_and_distinct() {
    assert_eq!(priority_levels(&[3, 0, 3, 1, 0]), vec![0, 1, 3]);
    assert_eq!(priority_levels(&[]), Vec::<u32>::new());
    assert_eq!(priority_levels(&[7]), vec![7]);
    assert_eq!(priority_levels(&[5, 4, 3, 2, 1]), vec![1, 2, 3, 4, 5]);
}

#[test]
fn requests_up_to_keeps_higher_priorities() {
    let priorities = [2, 0, 1, 0, 2];
    assert_eq!(requests_up_to(&priorities, 0), vec![1, 3]);
    assert_eq!(requests_up_to(&priorities, 1), vec![1, 2, 3]);
    assert_eq!(requests_up_to(&priorities, 2), vec![0, 1, 2, 3, 4]);
    assert_eq!(requests_up_to(&[], 2), Vec::<usize>::new());
}

#[test]
fn lowest_level_solves_every_request() {
    let priorities = [4, 9, 0, 9, 2];
    let levels = priority_levels(&priorities);
    let last = *levels.last().unwrap();
    assert_eq!(requests_up_to(&priorities, last), vec![0, 1, 2, 3, 4]);
}

#[test]
fn max_or_zero_picks_the_largest() {
    assert_eq!(max_or_zero(&[]), 0);
    assert_eq!(max_or_zero(&[3, 9, 2]), 9);
    assert_eq!(max_or_zero(&[0, 0]), 0);
    assert_eq!(max_or_zero(&[u32::MAX, 1]), u32::MAX);
}

#[test]
fn total_residual_dim_sums_equations() {
    let p = DatumPoint::new_xy(0, 1);
    let q = DatumPoint::new_xy(2, 3);
    let cs: Vec<Constraint<f64, f64>> = vec![
        Constraint::Distance(p, q, 1.0),
        Constraint::PointsCoincident(p, q),
        Constraint::Fixed(0, 1.0),
    ];
    assert_eq!(total_residual_dim(&cs), 4);
    assert_eq!(total_residual_dim::<f64, f64>(&[]), 0);
}

/// Runs the priority solve with a fake solver that answers each level from
/// `answers` (keyed by level) and records the subsets it was asked about.
fn run(
    priorities: &[u32],
    answers: &[(u32, Result<(&'static str, bool), &'static str>)],
) -> (Option<Result<&'static str, &'static str>>, Vec<(u32, Vec<usize>)>) {
    let calls = RefCell::new(Vec::new());
    let r = solve_by_priority(priorities, |subset: Vec<usize>, level: u32| {
        calls.borrow_mut().push((level, subset));
        answers.iter().find(|(l, _)| *l == level).unwrap().1
    });
    (r, calls.into_inner())
}

#[test]
fn priority_solve_without_requests() {
    let (r, calls) = run(&[], &[]);
    assert_eq!(r, None);
    assert!(calls.is_empty());
}

#[test]
fn priority_solve_all_levels_succeed() {
    let (r, calls) = run(&[1, 0, 1], &[(0, Ok(("a", false))), (1, Ok(("b", false)))]);
    assert_eq!(r, Some(Ok("b")));
    assert_eq!(calls, vec![(0, vec![1]), (1, vec![0, 1, 2])]);
}

#[test]
fn priority_solve_first_level_fails() {
    let (r, calls) = run(&[1, 0], &[(0, Err("boom")), (1, Ok(("b", false)))]);
    assert_eq!(r, Some(Err("boom")));
    assert_eq!(calls.len(), 1);
}

#[test]
fn priority_solve_later_level_fails() {
    let (r, calls) = run(
        &[0, 1, 2],
        &[(0, Ok(("a", false))), (1, Err("boom")), (2, Ok(("c", false)))],
    );
    assert_eq!(r, Some(Ok("a")));
    assert_eq!(calls, vec![(0, vec![0]), (1, vec![0, 1])]);
}

#[test]
fn priority_solve_first_level_unsatisfied() {
    let (r, calls) = run(&[0, 1], &[(0, Ok(("a", true))), (1, Ok(("b", false)))]);
    assert_eq!(r, Some(Ok("a")));
    assert_eq!(calls.len(), 1);
}

#[test]
fn priority_solve_later_level_unsatisfied() {
    let (r, calls) = run(
        &[2, 0, 1],
        &[(0, Ok(("a", false))), (1, Ok(("b", true))), (2, Ok(("c", false)))],
    );
    assert_eq!(r, Some(Ok("a")));
    assert_eq!(calls, vec![(0, vec![1]), (1, vec![1, 2])]);
}

#[test]
fn priority_solve_last_level_unsatisfied() {
    let (r, _) = run(&[0, 5], &[(0, Ok(("a", false))), (5, Ok(("b", true)))]);
    assert_eq!(r, Some(Ok("a")));
}
