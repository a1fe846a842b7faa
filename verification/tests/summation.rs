use summation::{
    sum_to_n, sum_to_n_a, sum_to_n_b, sum_to_n_c, Strategy, SumError, MAX_EXACT_N,
    RECURSION_LIMIT,
};

const ALL_STRATEGIES: [Strategy; 3] = [
    Strategy::Iterative,
    Strategy::Recursive,
    Strategy::ClosedForm,
];

#[test]
fn zero_and_negative_give_zero() {
    for strategy in ALL_STRATEGIES {
        assert_eq!(sum_to_n(0, strategy), Ok(0));
        assert_eq!(sum_to_n(-5, strategy), Ok(0));
        assert_eq!(sum_to_n(i32::MIN, strategy), Ok(0));
    }
}

#[test]
fn known_sums() {
    for strategy in ALL_STRATEGIES {
        assert_eq!(sum_to_n(1, strategy), Ok(1));
        assert_eq!(sum_to_n(5, strategy), Ok(15));
        assert_eq!(sum_to_n(10, strategy), Ok(55));
        assert_eq!(sum_to_n(100, strategy), Ok(5050));
    }
}

#[test]
fn strategies_agree_in_safe_range() {
    for n in [0, 1, 2, 3, 17, 100, 999, 4321, 9999, 10000] {
        let a = sum_to_n_a(n);
        assert_eq!(a, sum_to_n_b(n));
        assert_eq!(a, sum_to_n_c(n));
        assert!(a.is_ok());
    }
}

#[test]
fn closed_form_matches_iterative_up_to_overflow() {
    // Spot checks across the whole domain, including the largest sum that
    // still fits in an i32 and the first one that does not.
    for n in [
        -1,
        0,
        1,
        46340,
        46341,
        MAX_EXACT_N - 1,
        MAX_EXACT_N,
        MAX_EXACT_N + 1,
        1_000_000,
        i32::MAX,
    ] {
        assert_eq!(sum_to_n_c(n), sum_to_n_a(n));
    }
    assert_eq!(sum_to_n_a(MAX_EXACT_N), Ok(2_147_450_880));
    assert_eq!(sum_to_n_c(MAX_EXACT_N), Ok(2_147_450_880));
}

#[test]
fn recursive_refuses_beyond_depth_ceiling() {
    assert_eq!(sum_to_n_b(RECURSION_LIMIT), Ok(50_005_000));
    assert_eq!(sum_to_n_b(RECURSION_LIMIT + 1), Err(SumError::DepthLimit));
    assert_eq!(
        sum_to_n(i32::MAX, Strategy::Recursive),
        Err(SumError::DepthLimit)
    );
}

#[test]
fn overflow_is_reported_not_wrapped() {
    // 65536 * 65537 overflows an i32, and the exact sum 2147516416 exceeds
    // i32::MAX: both non-recursive strategies must say so.
    assert_eq!(sum_to_n_a(MAX_EXACT_N + 1), Err(SumError::Overflow));
    assert_eq!(sum_to_n_c(MAX_EXACT_N + 1), Err(SumError::Overflow));
    assert_eq!(sum_to_n_c(i32::MAX), Err(SumError::Overflow));
    assert_eq!(
        sum_to_n(1_000_000, Strategy::ClosedForm),
        Err(SumError::Overflow)
    );
}

#[test]
fn dispatcher_picks_the_named_strategy() {
    assert_eq!(sum_to_n(7, Strategy::Iterative), sum_to_n_a(7));
    assert_eq!(sum_to_n(7, Strategy::Recursive), sum_to_n_b(7));
    assert_eq!(sum_to_n(7, Strategy::ClosedForm), sum_to_n_c(7));
    // The strategies are told apart where their error behaviour differs.
    assert_eq!(
        sum_to_n(RECURSION_LIMIT + 1, Strategy::Recursive),
        Err(SumError::DepthLimit)
    );
    assert_eq!(
        sum_to_n(RECURSION_LIMIT + 1, Strategy::Iterative),
        Ok(50_015_001)
    );
}
