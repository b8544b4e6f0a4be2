use stellar_stream::math::{
    calculate_unlocked, calculate_unlocked_amount, calculate_withdrawable_amount, mul_div_floor,
};

#[test]
fn unlocked_is_nothing_before_the_cliff() {
    assert_eq!(calculate_unlocked(1000, 100, 150, 200, 0), 0);
    assert_eq!(calculate_unlocked(1000, 100, 150, 200, 100), 0);
    assert_eq!(calculate_unlocked(1000, 100, 150, 200, 149), 0);
}

#[test]
fn unlocked_counts_from_the_start_once_the_cliff_is_reached() {
    assert_eq!(calculate_unlocked(1000, 100, 150, 200, 150), 500);
    assert_eq!(calculate_unlocked(1000, 100, 150, 200, 175), 750);
    assert_eq!(calculate_unlocked(1000, 100, 150, 200, 199), 990);
}

#[test]
fn unlocked_is_everything_from_the_end_on() {
    assert_eq!(calculate_unlocked(1000, 100, 150, 200, 200), 1000);
    assert_eq!(calculate_unlocked(1000, 100, 150, 200, 201), 1000);
    assert_eq!(calculate_unlocked(1000, 100, 150, 200, u64::MAX), 1000);
}

#[test]
fn unlocked_rounds_down() {
    assert_eq!(calculate_unlocked(10, 0, 0, 3, 1), 3);
    assert_eq!(calculate_unlocked(10, 0, 0, 3, 2), 6);
    assert_eq!(calculate_unlocked(1, 0, 0, 1000, 999), 0);
}

#[test]
fn unlocked_without_cliff_agrees_with_cliff_at_start() {
    let mut now = 90u64;
    while now <= 210 {
        assert_eq!(
            calculate_unlocked_amount(1000, 100, 200, now),
            calculate_unlocked(1000, 100, 100, 200, now)
        );
        now += 1;
    }
    assert_eq!(calculate_unlocked_amount(1000, 100, 200, 150), 500);
}

#[test]
fn unlocked_never_goes_down_and_stays_in_range() {
    let mut last = 0i128;
    let mut now = 0u64;
    while now <= 400 {
        let unlocked = calculate_unlocked(777, 100, 130, 300, now);
        assert!(0 <= unlocked && unlocked <= 777);
        assert!(last <= unlocked);
        last = unlocked;
        now += 1;
    }
    assert_eq!(last, 777);
}

#[test]
fn unlocked_holds_for_the_largest_amounts_and_durations() {
    // (2^127 - 1) * (2^64 - 2) / (2^64 - 1), rounded down, is 2^127 - 2^63 - 2.
    assert_eq!(
        calculate_unlocked(i128::MAX, 0, 0, u64::MAX, u64::MAX - 1),
        i128::MAX - (1i128 << 63) - 1
    );
    assert_eq!(calculate_unlocked(i128::MAX, 0, 0, u64::MAX, 0), 0);
    assert_eq!(calculate_unlocked(i128::MAX, 0, 0, 2, 1), i128::MAX / 2);
    assert_eq!(calculate_unlocked(0, 0, 0, 2, 1), 0);
}

#[test]
fn mul_div_floor_is_exact_where_the_product_overflows() {
    assert_eq!(mul_div_floor(u128::MAX, 1, 2), u128::MAX / 2);
    assert_eq!(mul_div_floor(u128::MAX, 3, 3), u128::MAX);
    assert_eq!(mul_div_floor(u128::MAX, 0, 7), 0);
    assert_eq!(mul_div_floor(1u128 << 100, 1 << 40, 1 << 50), 1u128 << 90);
    assert_eq!(mul_div_floor(1_000_000_007, 999_999, 1_000_000), 1_000_000_007 * 999_999 / 1_000_000);
}

#[test]
fn withdrawable_is_unlocked_less_withdrawn() {
    assert_eq!(calculate_withdrawable_amount(500, 0), 500);
    assert_eq!(calculate_withdrawable_amount(500, 200), 300);
    assert_eq!(calculate_withdrawable_amount(500, 500), 0);
}
