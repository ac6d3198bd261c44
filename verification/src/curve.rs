//! The arithmetic of the pool: share issue, redemption and swap pricing.
//!
//! Every formula is stated over the integers and rounds down. The executable
//! functions compute in 128 bits, where the product of two balances fits.

use vstd::arithmetic::div_mod::{
    lemma_div_is_ordered, lemma_div_multiples_vanish, lemma_div_pos_is_pos,
    lemma_fundamental_div_mod, lemma_mod_bound,
};
use vstd::arithmetic::mul::{
    lemma_mul_inequality, lemma_mul_is_commutative, lemma_mul_is_distributive_add,
    lemma_mul_nonnegative, lemma_mul_strict_inequality,
};
use vstd::prelude::*;

verus! {

/// `x * y / d`, rounded down.
pub open spec fn mul_div(x: int, y: int, d: int) -> int {
    (x * y) / d
}

/// Whether a deposit of `(amount_a, amount_b)` is in the ratio of the
/// reserves `(vault_a, vault_b)`, exactly.
pub open spec fn ratio_matches(vault_a: int, vault_b: int, amount_a: int, amount_b: int) -> bool {
    vault_a * amount_b == vault_b * amount_a
}

/// Shares issued for the first deposit: the square of the product of the
/// two amounts. This is the square, where constant-product pools commonly
/// take the square root: a first deposit whose product passes 2^32 - 1
/// earns more shares than the supply can count, and is refused.
pub open spec fn initial_shares(amount_a: int, amount_b: int) -> int {
    (amount_a * amount_b) * (amount_a * amount_b)
}

/// Shares issued for a deposit into a pool with `total_shares` outstanding:
/// the smaller of the two shares of the supply that the amounts make up of
/// the reserves `reserve_a` and `reserve_b`, which include the deposit.
pub open spec fn proportional_shares(
    amount_a: int,
    amount_b: int,
    total_shares: int,
    reserve_a: int,
    reserve_b: int,
) -> int {
    let by_a = mul_div(amount_a, total_shares, reserve_a);
    let by_b = mul_div(amount_b, total_shares, reserve_b);
    if by_a <= by_b {
        by_a
    } else {
        by_b
    }
}

/// What `shares` out of `total_shares` redeem of a vault that holds `vault`.
pub open spec fn redeemed_amount(vault: int, shares: int, total_shares: int) -> int {
    mul_div(vault, shares, total_shares)
}

/// What a swap pays out of `vault_out` for `amount_in` paid into `vault_in`:
/// the constant-product price without a fee, the amount paid in counted in
/// the denominator.
pub open spec fn swap_output(vault_out: int, vault_in: int, amount_in: int) -> int {
    mul_div(vault_out, amount_in, vault_in + amount_in)
}

/// A part `y` of a whole `d` takes no more than all of `x`.
pub proof fn lemma_mul_div_bounded(x: int, y: int, d: int)
    requires
        0 <= x,
        0 <= y <= d,
        0 < d,
    ensures
        0 <= mul_div(x, y, d) <= x,
{
    lemma_mul_nonnegative(x, y);
    lemma_div_pos_is_pos(x * y, d);
    lemma_mul_inequality(y, d, x);
    lemma_mul_is_commutative(x, y);
    lemma_mul_is_commutative(x, d);
    lemma_div_is_ordered(x * y, d * x, d);
    lemma_div_multiples_vanish(x, d);
}

/// `mul_div` rounds down: it is the largest number of whole `d` in `x * y`.
pub proof fn lemma_mul_div_is_floor(x: int, y: int, d: int)
    requires
        0 < d,
    ensures
        mul_div(x, y, d) * d <= x * y < (mul_div(x, y, d) + 1) * d,
{
    let q = mul_div(x, y, d);
    lemma_fundamental_div_mod(x * y, d);
    lemma_mod_bound(x * y, d);
    lemma_mul_is_commutative(d, q);
    lemma_mul_is_distributive_add(d, q, 1);
    lemma_mul_is_commutative(d, q + 1);
}

/// The whole of `d` takes all of `x`.
pub proof fn lemma_mul_div_whole(x: int, d: int)
    requires
        0 < d,
    ensures
        mul_div(x, d, d) == x,
{
    lemma_mul_is_commutative(x, d);
    lemma_div_multiples_vanish(x, d);
}

/// A proper part `y` of a whole `d` takes less than all of a positive `x`.
pub proof fn lemma_mul_div_proper(x: int, y: int, d: int)
    requires
        0 < x,
        0 <= y < d,
    ensures
        mul_div(x, y, d) < x,
{
    let q = mul_div(x, y, d);
    lemma_mul_div_is_floor(x, y, d);
    lemma_mul_strict_inequality(y, d, x);
    lemma_mul_is_commutative(x, y);
    lemma_mul_is_commutative(x, d);
    if q >= x {
        lemma_mul_inequality(x, q, d);
    }
}

/// The product of two 64-bit amounts, in 128 bits.
fn wide_mul(x: u64, y: u64) -> (product: u128)
    ensures
        product == x * y,
{
    assert(x * y <= 0xFFFF_FFFF_FFFF_FFFF * 0xFFFF_FFFF_FFFF_FFFF) by (nonlinear_arith)
        requires
            x <= 0xFFFF_FFFF_FFFF_FFFF,
            y <= 0xFFFF_FFFF_FFFF_FFFF,
    ;
    (x as u128) * (y as u128)
}

/// Computes `x * y / d`, rounded down, for a divisor that is not zero.
pub fn mul_div_floor(x: u64, y: u64, d: u128) -> (quotient: u128)
    requires
        d > 0,
    ensures
        quotient == mul_div(x as int, y as int, d as int),
{
    wide_mul(x, y) / d
}

/// Tests whether a deposit is in the ratio of the reserves.
pub fn ratio_holds(vault_a: u64, vault_b: u64, amount_a: u64, amount_b: u64) -> (holds: bool)
    ensures
        holds == ratio_matches(vault_a as int, vault_b as int, amount_a as int, amount_b as int),
{
    wide_mul(vault_a, amount_b) == wide_mul(vault_b, amount_a)
}

/// Shares for the first deposit, where their number fits a balance.
pub fn first_deposit_shares(amount_a: u64, amount_b: u64) -> (shares: Option<u64>)
    ensures
        match shares {
            Some(s) => s == initial_shares(amount_a as int, amount_b as int),
            None => initial_shares(amount_a as int, amount_b as int) > u64::MAX,
        },
{
    let product: u128 = wide_mul(amount_a, amount_b);
    if product > 0xFFFF_FFFF {
        assert(product * product >= 0x1_0000_0000 * 0x1_0000_0000) by (nonlinear_arith)
            requires
                product >= 0x1_0000_0000,
        ;
        None
    } else {
        assert(product * product <= 0xFFFF_FFFF * 0xFFFF_FFFF) by (nonlinear_arith)
            requires
                product <= 0xFFFF_FFFF,
        ;
        let square: u128 = product * product;
        Some(square as u64)
    }
}

/// Shares for a deposit into a pool that has shares outstanding, measured
/// against reserves that hold something.
pub fn later_deposit_shares(
    amount_a: u64,
    amount_b: u64,
    total_shares: u64,
    reserve_a: u64,
    reserve_b: u64,
) -> (shares: u128)
    requires
        reserve_a > 0,
        reserve_b > 0,
    ensures
        shares == proportional_shares(
            amount_a as int,
            amount_b as int,
            total_shares as int,
            reserve_a as int,
            reserve_b as int,
        ),
        amount_a <= reserve_a ==> shares <= total_shares,
{
    proof {
        if amount_a <= reserve_a {
            lemma_mul_is_commutative(amount_a as int, total_shares as int);
            lemma_mul_div_bounded(total_shares as int, amount_a as int, reserve_a as int);
        }
    }
    let by_a: u128 = mul_div_floor(amount_a, total_shares, reserve_a as u128);
    let by_b: u128 = mul_div_floor(amount_b, total_shares, reserve_b as u128);
    if by_a <= by_b {
        by_a
    } else {
        by_b
    }
}

/// What `shares` out of `total_shares` redeem of a vault, where shares are
/// outstanding.
pub fn withdrawal_amount(vault: u64, shares: u64, total_shares: u64) -> (amount: u128)
    requires
        total_shares > 0,
    ensures
        amount == redeemed_amount(vault as int, shares as int, total_shares as int),
        shares <= total_shares ==> amount <= vault,
{
    proof {
        if shares <= total_shares {
            lemma_mul_div_bounded(vault as int, shares as int, total_shares as int);
        }
    }
    mul_div_floor(vault, shares, total_shares as u128)
}

/// What a swap pays out for `amount_in`. The vault paid into and the
/// payment may not both be nothing.
pub fn swap_amount_out(vault_out: u64, vault_in: u64, amount_in: u64) -> (amount_out: u64)
    requires
        vault_in + amount_in > 0,
    ensures
        amount_out == swap_output(vault_out as int, vault_in as int, amount_in as int),
        amount_out <= vault_out,
{
    let after: u128 = vault_in as u128 + amount_in as u128;
    proof {
        lemma_mul_div_bounded(vault_out as int, amount_in as int, after as int);
    }
    let paid: u128 = mul_div_floor(vault_out, amount_in, after);
    paid as u64
}

} // verus!
