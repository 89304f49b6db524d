//! Conversions between token amounts, native amounts and ticket amounts.
//!
//! Every conversion multiplies two 128-bit values and divides the product,
//! so the product is formed in 256 bits and the quotient rounds toward zero.

use primitive_types::U256;
use vstd::prelude::*;

verus! {

/// Tickets that `token_amount` tokens buy out of `reserve`, when
/// `circulating` tokens are outstanding.
pub open spec fn tickets_for(token_amount: int, reserve: int, circulating: int) -> int {
    (reserve * token_amount) / circulating
}

/// Tokens that `native_amount` buys, when `circulating` tokens are
/// outstanding against `reserve`.
pub open spec fn tokens_for(native_amount: int, circulating: int, reserve: int) -> int {
    (native_amount * circulating) / reserve
}

/// Relies on primitive_types::U256, built by uint's `construct_uint!`: a
/// `u128` converts exactly, the product of two such values is exact in 256
/// bits, `/` is floor division that panics only on a zero divisor, and
/// `u128::try_from` succeeds exactly when the quotient fits in 128 bits.
#[verifier::external_body]
fn mul_div_wide(a: u128, b: u128, c: u128) -> (r: Option<u128>)
    requires
        c > 0,
    ensures
        (a * b) / (c as int) <= u128::MAX ==> r == Some(((a * b) / (c as int)) as u128),
        (a * b) / (c as int) > u128::MAX ==> r is None,
{
    u128::try_from(U256::from(a) * U256::from(b) / U256::from(c)).ok()
}

/// `floor(reserve * token_amount / circulating)`, or `None` where that
/// does not fit in a `u128`.
pub fn tokens_to_tickets(token_amount: u128, reserve: u128, circulating: u128) -> (r: Option<u128>)
    requires
        circulating > 0,
    ensures
        tickets_for(token_amount as int, reserve as int, circulating as int) <= u128::MAX
            ==> r == Some(tickets_for(token_amount as int, reserve as int, circulating as int) as u128),
        tickets_for(token_amount as int, reserve as int, circulating as int) > u128::MAX
            ==> r is None,
{
    mul_div_wide(reserve, token_amount, circulating)
}

/// `floor(native_amount * circulating / reserve)`, or `None` where that
/// does not fit in a `u128`.
pub fn near_to_tokens(native_amount: u128, circulating: u128, reserve: u128) -> (r: Option<u128>)
    requires
        reserve > 0,
    ensures
        tokens_for(native_amount as int, circulating as int, reserve as int) <= u128::MAX
            ==> r == Some(tokens_for(native_amount as int, circulating as int, reserve as int) as u128),
        tokens_for(native_amount as int, circulating as int, reserve as int) > u128::MAX
            ==> r is None,
{
    mul_div_wide(native_amount, circulating, reserve)
}

/// The ticket price never rounds a larger holding or a larger reserve down
/// to fewer tickets, and a holding no larger than the outstanding supply
/// never buys more than the whole reserve.
pub proof fn lemma_tickets_monotonic(t1: int, t2: int, r1: int, r2: int, circulating: int)
    requires
        0 <= t1 <= t2,
        0 <= r1 <= r2,
        circulating > 0,
    ensures
        tickets_for(t1, r1, circulating) <= tickets_for(t2, r1, circulating),
        tickets_for(t1, r1, circulating) <= tickets_for(t1, r2, circulating),
        t2 <= circulating ==> tickets_for(t2, r2, circulating) <= r2,
{
    assert(r1 * t1 <= r1 * t2) by (nonlinear_arith)
        requires 0 <= t1 <= t2, 0 <= r1;
    assert(r1 * t1 <= r2 * t1) by (nonlinear_arith)
        requires 0 <= r1 <= r2, 0 <= t1;
    vstd::arithmetic::div_mod::lemma_div_is_ordered(r1 * t1, r1 * t2, circulating);
    vstd::arithmetic::div_mod::lemma_div_is_ordered(r1 * t1, r2 * t1, circulating);
    if t2 <= circulating {
        assert(r2 * t2 <= r2 * circulating) by (nonlinear_arith)
            requires 0 <= t2 <= circulating, 0 <= r2;
        vstd::arithmetic::div_mod::lemma_div_is_ordered(r2 * t2, r2 * circulating, circulating);
        vstd::arithmetic::div_mod::lemma_div_multiples_vanish(r2, circulating);
        assert(r2 * circulating == circulating * r2) by (nonlinear_arith);
    }
}

} // verus!
