//! The unlock schedule: how much of a principal is released at a given time.

use vstd::arithmetic::div_mod::{
    lemma_div_is_ordered, lemma_div_multiples_vanish, lemma_div_pos_is_pos,
    lemma_fundamental_div_mod, lemma_hoist_over_denominator, lemma_mod_bound,
};
use vstd::arithmetic::mul::{lemma_mul_inequality, lemma_mul_is_commutative, lemma_mul_nonnegative};
use vstd::prelude::*;

verus! {

/// The amount released at `now`: nothing before the cliff, everything from
/// the end on, and in between the share of the principal that the time
/// elapsed since the start has of the whole duration, rounded down.
pub open spec fn unlocked_at(total: int, start: int, cliff: int, end: int, now: int) -> int {
    if now < cliff {
        0
    } else if now >= end {
        total
    } else {
        total * (now - start) / (end - start)
    }
}

/// `t * e / d`, rounded down, can be had from the quotient and the remainder
/// of `t` by `d` without ever forming `t * e`.
pub proof fn lemma_scaled_by_parts(t: int, e: int, d: int)
    requires
        0 < d,
    ensures
        t * e / d == (t / d) * e + ((t % d) * e) / d,
{
    let q = t / d;
    let r = t % d;
    lemma_fundamental_div_mod(t, d);
    assert(t * e == r * e + (q * e) * d) by (nonlinear_arith)
        requires
            t == d * q + r,
    ;
    lemma_hoist_over_denominator(r * e, q * e, d as nat);
}

/// A share `e` out of `d` of a non-negative `t` lies between nothing and `t`.
pub proof fn lemma_scaled_in_range(t: int, e: int, d: int)
    requires
        0 <= t,
        0 <= e <= d,
        0 < d,
    ensures
        0 <= t * e / d <= t,
{
    lemma_mul_nonnegative(t, e);
    lemma_div_pos_is_pos(t * e, d);
    lemma_mul_inequality(e, d, t);
    lemma_mul_is_commutative(e, t);
    lemma_mul_is_commutative(d, t);
    lemma_div_is_ordered(t * e, t * d, d);
    lemma_div_multiples_vanish(t, d);
    lemma_mul_is_commutative(t, d);
}

/// A larger share of the same amount is no smaller.
pub proof fn lemma_scaled_is_monotonic(t: int, e1: int, e2: int, d: int)
    requires
        0 <= t,
        e1 <= e2,
        0 < d,
    ensures
        t * e1 / d <= t * e2 / d,
{
    lemma_mul_inequality(e1, e2, t);
    lemma_mul_is_commutative(e1, t);
    lemma_mul_is_commutative(e2, t);
    lemma_div_is_ordered(t * e1, t * e2, d);
}

/// Nothing is released before the cliff, and everything from the end on.
pub proof fn lemma_unlocked_at_the_ends(total: int, start: int, cliff: int, end: int, now: int)
    ensures
        now < cliff ==> unlocked_at(total, start, cliff, end, now) == 0,
        cliff <= now && end <= now ==> unlocked_at(total, start, cliff, end, now) == total,
{
}

/// The released amount never leaves the range from nothing to the principal.
pub proof fn lemma_unlocked_in_range(total: int, start: int, cliff: int, end: int, now: int)
    requires
        0 <= total,
        start <= cliff < end,
    ensures
        0 <= unlocked_at(total, start, cliff, end, now) <= total,
{
    if cliff <= now < end {
        lemma_scaled_in_range(total, now - start, end - start);
    }
}

/// The released amount never goes down as time goes on.
pub proof fn lemma_unlocked_is_monotonic(
    total: int,
    start: int,
    cliff: int,
    end: int,
    earlier: int,
    later: int,
)
    requires
        0 <= total,
        start <= cliff < end,
        earlier <= later,
    ensures
        unlocked_at(total, start, cliff, end, earlier) <= unlocked_at(
            total,
            start,
            cliff,
            end,
            later,
        ),
{
    lemma_unlocked_in_range(total, start, cliff, end, earlier);
    lemma_unlocked_in_range(total, start, cliff, end, later);
    if cliff <= earlier && later < end {
        lemma_scaled_is_monotonic(total, earlier - start, later - start, end - start);
    }
}

/// `amount * part / whole`, rounded down, for a part that is no more than the
/// whole. The product itself may not fit in 128 bits; the quotient always does.
pub fn mul_div_floor(amount: u128, part: u64, whole: u64) -> (share: u128)
    requires
        part <= whole,
        0 < whole,
    ensures
        share == amount * part / (whole as int),
        share <= amount,
{
    let d: u128 = whole as u128;
    let e: u128 = part as u128;
    let q: u128 = amount / d;
    let r: u128 = amount % d;
    proof {
        lemma_scaled_by_parts(amount as int, e as int, d as int);
        lemma_scaled_in_range(amount as int, e as int, d as int);
        lemma_fundamental_div_mod(amount as int, d as int);
        lemma_mod_bound(amount as int, d as int);
        assert(0 <= q * e <= amount) by (nonlinear_arith)
            requires
                amount == d * q + r,
                0 <= r,
                0 <= e <= d,
                0 <= q,
        ;
        assert(0 <= r * e <= 0xffff_ffff_ffff_ffff * 0xffff_ffff_ffff_ffff) by (nonlinear_arith)
            requires
                0 <= r <= 0xffff_ffff_ffff_ffff,
                0 <= e <= 0xffff_ffff_ffff_ffff,
        ;
        lemma_mul_nonnegative(r as int, e as int);
        lemma_div_pos_is_pos(r * e, d as int);
    }
    let whole_part: u128 = q * e;
    let rest: u128 = (r * e) / d;
    whole_part + rest
}

/// The amount of `total` that is released at `now` under a schedule that
/// starts at `start`, releases nothing before `cliff` and everything from
/// `end` on.
pub fn calculate_unlocked(total: i128, start: u64, cliff: u64, end: u64, now: u64) -> (unlocked:
    i128)
    requires
        0 <= total,
        start <= cliff < end,
    ensures
        unlocked == unlocked_at(total as int, start as int, cliff as int, end as int, now as int),
        0 <= unlocked <= total,
{
    if now < cliff {
        0
    } else if now >= end {
        total
    } else {
        let share: u128 = mul_div_floor(total as u128, now - start, end - start);
        share as i128
    }
}

/// The released amount under a schedule without a cliff: the release starts
/// with the schedule itself.
pub fn calculate_unlocked_amount(total: i128, start: u64, end: u64, now: u64) -> (unlocked: i128)
    requires
        0 <= total,
        start < end,
    ensures
        unlocked == unlocked_at(total as int, start as int, start as int, end as int, now as int),
        0 <= unlocked <= total,
{
    calculate_unlocked(total, start, start, end, now)
}

/// What can be paid out now: the released amount less what was paid out before.
pub fn calculate_withdrawable_amount(unlocked: i128, withdrawn: i128) -> (withdrawable: i128)
    requires
        0 <= withdrawn <= unlocked,
    ensures
        withdrawable == unlocked - withdrawn,
{
    unlocked - withdrawn
}

} // verus!
