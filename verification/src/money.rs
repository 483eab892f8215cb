//! Arithmetic on amounts in minor currency units.

use vstd::prelude::*;

verus! {

/// The amount owed for a cart: the subtotal less the discount, floored at zero.
pub open spec fn order_total(subtotal: int, discount: int) -> int {
    if subtotal - discount > 0 {
        subtotal - discount
    } else {
        0
    }
}

/// `percent` hundredths of `amount`, rounded to the nearest unit with ties
/// rounded up.
pub open spec fn percent_of(percent: int, amount: int) -> int {
    (percent * amount + 50) / 100
}

/// `percent_of`, capped at the largest representable amount.
pub open spec fn percent_of_capped(percent: int, amount: int) -> int {
    if percent_of(percent, amount) > i64::MAX {
        i64::MAX as int
    } else {
        percent_of(percent, amount)
    }
}

/// What a gift purchase adds on top of the paid amount: a tenth of it.
pub open spec fn gift_bonus_of(base: int) -> int {
    percent_of(10, base)
}

/// The stored value of a gift code bought for `base`.
pub open spec fn gift_value_of(base: int) -> int {
    base + gift_bonus_of(base)
}

/// The smaller of two amounts.
pub open spec fn min_amount(a: int, b: int) -> int {
    if a <= b {
        a
    } else {
        b
    }
}

/// `percent_of` is the rounding of `percent * amount / 100` to the nearest
/// integer, ties going up: it is the one integer `r` with
/// `100 r - 50 <= percent * amount < 100 r + 50`.
pub proof fn lemma_percent_of_is_nearest(percent: int, amount: int, r: int)
    ensures
        r == percent_of(percent, amount) <==> (100 * r - 50 <= percent * amount < 100 * r + 50),
{
    let x = percent * amount + 50;
    assert(x == 100 * (x / 100) + x % 100 && 0 <= x % 100 < 100) by {
        vstd::arithmetic::div_mod::lemma_fundamental_div_mod(x, 100);
    }
    if 100 * r - 50 <= percent * amount < 100 * r + 50 {
        assert(100 * r <= x < 100 * r + 100);
        assert(r == x / 100) by {
            vstd::arithmetic::div_mod::lemma_fundamental_div_mod_converse(x, 100, r, x - 100 * r);
        }
    }
}

/// A percentage discount never exceeds the amount it is taken from when the
/// percentage is at most one hundred, and is never negative.
pub proof fn lemma_percent_of_bounds(percent: int, amount: int)
    requires
        0 <= percent <= 100,
        0 <= amount,
    ensures
        0 <= percent_of(percent, amount) <= amount,
        percent_of_capped(percent, amount) == percent_of(percent, amount) || amount > i64::MAX,
{
    assert(0 <= percent * amount <= 100 * amount) by (nonlinear_arith)
        requires
            0 <= percent <= 100,
            0 <= amount,
    ;
}

/// The amount owed: `max(0, subtotal - discount)`.
pub fn total(subtotal_cents: i64, discount_cents: i64) -> (t: i64)
    requires
        subtotal_cents - discount_cents <= i64::MAX,
    ensures
        t == order_total(subtotal_cents as int, discount_cents as int),
        t >= 0,
{
    if subtotal_cents > discount_cents {
        subtotal_cents - discount_cents
    } else {
        0
    }
}

/// The discount that `percent` per cent takes off `subtotal_cents`, rounded
/// half up and capped at `i64::MAX`.
pub fn percent_discount(percent: i64, subtotal_cents: i64) -> (d: i64)
    requires
        percent >= 0,
        subtotal_cents >= 0,
    ensures
        d == percent_of_capped(percent as int, subtotal_cents as int),
        d >= 0,
{
    let p: i128 = percent as i128;
    let s: i128 = subtotal_cents as i128;
    assert(0 <= p * s <= 0x7fff_ffff_ffff_ffff * 0x7fff_ffff_ffff_ffff) by (nonlinear_arith)
        requires
            0 <= p <= 0x7fff_ffff_ffff_ffff,
            0 <= s <= 0x7fff_ffff_ffff_ffff,
    ;
    let scaled: i128 = (p * s + 50) / 100;
    if scaled > i64::MAX as i128 {
        i64::MAX
    } else {
        scaled as i64
    }
}

/// The bonus granted on a gift purchase of `base_cents`: ten per cent,
/// rounded half up.
pub fn gift_bonus(base_cents: i64) -> (b: i64)
    requires
        base_cents >= 0,
    ensures
        b == gift_bonus_of(base_cents as int),
        0 <= b <= base_cents,
{
    proof {
        lemma_percent_of_bounds(10, base_cents as int);
    }
    percent_discount(10, base_cents)
}

/// The stored value of a gift code bought for `base_cents`, or `None` where
/// the value does not fit the amount type.
pub fn gift_value(base_cents: i64) -> (v: Option<i64>)
    requires
        base_cents >= 0,
    ensures
        v is Some <==> gift_value_of(base_cents as int) <= i64::MAX,
        v matches Some(x) ==> x == gift_value_of(base_cents as int),
{
    let bonus = gift_bonus(base_cents);
    base_cents.checked_add(bonus)
}

} // verus!
