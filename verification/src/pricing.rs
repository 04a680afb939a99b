//! Discount arithmetic for invoice listings.
//!
//! A listing turns a face amount and a discount rate (whole percent) into a
//! selling price: `price = amount - amount * rate / 100`, with the division
//! truncating toward zero exactly as Rust's `/` does on signed integers.
//! Rates above 100 and negative amounts are accepted as-is; the ledger
//! imposes no bounds of its own beyond what fits in the machine integers.

use vstd::arithmetic::div_mod::lemma_div_is_ordered;
use vstd::arithmetic::div_mod::lemma_div_nonincreasing;
use vstd::arithmetic::div_mod::lemma_div_pos_is_pos;
use vstd::prelude::*;

verus! {

/// Division truncating toward zero, for a positive divisor.
///
/// On non-negative dividends this agrees with Euclidean division; on
/// negative dividends it rounds toward zero, as `/` does on Rust's signed
/// integer types.
pub open spec fn trunc_div(a: int, d: int) -> int
    recommends
        d > 0,
{
    if a >= 0 {
        a / d
    } else {
        -((-a) / d)
    }
}

/// The discount taken off the face amount: `amount * rate / 100`,
/// truncating toward zero.
pub open spec fn discount_of(amount: int, rate: int) -> int {
    trunc_div(amount * rate, 100)
}

/// The price a buyer pays: the face amount less the discount.
pub open spec fn selling_price_of(amount: int, rate: int) -> int {
    amount - discount_of(amount, rate)
}

/// Truncating division stays between zero and the dividend: the quotient
/// carries the dividend's sign and never exceeds it in magnitude.
pub proof fn lemma_trunc_div_bounds(a: int, d: int)
    requires
        d > 0,
    ensures
        a >= 0 ==> 0 <= trunc_div(a, d) <= a,
        a < 0 ==> a <= trunc_div(a, d) <= 0,
{
    if a >= 0 {
        lemma_div_pos_is_pos(a, d);
        lemma_div_nonincreasing(a, d);
    } else {
        lemma_div_pos_is_pos(-a, d);
        lemma_div_nonincreasing(-a, d);
    }
}

/// Truncating division is monotone in the dividend's magnitude: a bound on
/// `|a|` bounds `|a / d|` after division by the same positive divisor.
pub proof fn lemma_trunc_div_magnitude(a: int, bound: int, d: int)
    requires
        d > 0,
        bound >= 0,
        -bound <= a <= bound,
    ensures
        -(bound / d) <= trunc_div(a, d) <= bound / d,
{
    if a >= 0 {
        lemma_div_pos_is_pos(a, d);
        lemma_div_is_ordered(a, bound, d);
    } else {
        lemma_div_pos_is_pos(-a, d);
        lemma_div_is_ordered(-a, bound, d);
    }
}

/// As long as `amount * rate` fits in an `i64`, the discount and the selling
/// price do too, so the listing arithmetic cannot overflow.
pub proof fn lemma_selling_price_fits(amount: int, rate: int)
    requires
        i64::MIN <= amount <= i64::MAX,
        rate >= 0,
        i64::MIN <= amount * rate <= i64::MAX,
    ensures
        i64::MIN <= discount_of(amount, rate) <= i64::MAX,
        i64::MIN <= selling_price_of(amount, rate) <= i64::MAX,
        amount >= 0 ==> 0 <= discount_of(amount, rate) && selling_price_of(amount, rate) <= amount,
        amount < 0 ==> discount_of(amount, rate) <= 0 && selling_price_of(amount, rate) >= amount,
{
    let p = amount * rate;
    lemma_trunc_div_bounds(p, 100);
    lemma_trunc_div_magnitude(p, 0x8000_0000_0000_0000, 100);
    if amount >= 0 {
        assert(amount * rate >= 0) by (nonlinear_arith)
            requires
                amount >= 0 && rate >= 0,
        ;
    } else {
        assert(amount * rate <= 0) by (nonlinear_arith)
            requires
                amount < 0 && rate >= 0,
        ;
    }
}

/// Computes the selling price of a listing: the face amount less
/// `amount * rate / 100`, truncating toward zero.
pub fn compute_selling_price(invoice_amount: i64, discount_rate: u64) -> (price: i64)
    requires
        i64::MIN <= invoice_amount * discount_rate <= i64::MAX,
    ensures
        price == selling_price_of(invoice_amount as int, discount_rate as int),
{
    proof {
        lemma_selling_price_fits(invoice_amount as int, discount_rate as int);
    }
    let product: i128 = (invoice_amount as i128) * (discount_rate as i128);
    let discount: i128 = product / 100;
    let price: i128 = (invoice_amount as i128) - discount;
    price as i64
}

} // verus!
