//! The constant-product pricing formula and the facts that follow from it.

use vstd::prelude::*;
use crate::error::SwapError;

verus! {

/// The product `amount_in * reserve_out` that the output is taken from.
pub open spec fn numerator(amount_in: u64, reserve_out: u64) -> int {
    amount_in * reserve_out
}

/// The reserve of the input asset once the trade has been paid in.
pub open spec fn denominator(amount_in: u64, reserve_in: u64) -> int {
    reserve_in + amount_in
}

/// The formula can be evaluated in 64 bits: neither the product nor the sum
/// overflows, and the sum is not zero.
pub open spec fn priceable(amount_in: u64, reserve_in: u64, reserve_out: u64) -> bool {
    &&& numerator(amount_in, reserve_out) <= u64::MAX
    &&& denominator(amount_in, reserve_in) <= u64::MAX
    &&& denominator(amount_in, reserve_in) != 0
}

/// The output of a priceable trade: the quotient rounded down.
pub open spec fn output_amount(amount_in: u64, reserve_in: u64, reserve_out: u64) -> int {
    numerator(amount_in, reserve_out) / denominator(amount_in, reserve_in)
}

/// Prices a trade of `amount_in` against the reserves of the input and the
/// output asset, as they stand before the trade is paid in.
pub fn calculate_swap_output(amount_in: u64, reserve_in: u64, reserve_out: u64) -> (result: Result<
    u64,
    SwapError,
>)
    ensures
        priceable(amount_in, reserve_in, reserve_out) ==> result == Ok::<u64, SwapError>(
            output_amount(amount_in, reserve_in, reserve_out) as u64,
        ),
        priceable(amount_in, reserve_in, reserve_out) ==> output_amount(
            amount_in,
            reserve_in,
            reserve_out,
        ) <= reserve_out,
        !priceable(amount_in, reserve_in, reserve_out) ==> result == Err::<u64, SwapError>(
            SwapError::MathOverflow,
        ),
{
    let numerator: u64 = match amount_in.checked_mul(reserve_out) {
        Some(product) => product,
        None => { return Err(SwapError::MathOverflow); },
    };
    let denominator: u64 = match reserve_in.checked_add(amount_in) {
        Some(sum) => sum,
        None => { return Err(SwapError::MathOverflow); },
    };
    let amount_out: u64 = match numerator.checked_div(denominator) {
        Some(quotient) => quotient,
        None => { return Err(SwapError::MathOverflow); },
    };
    proof {
        lemma_output_within_reserve(amount_in, reserve_in, reserve_out);
    }
    Ok(amount_out)
}

/// The output never exceeds the reserve it is paid from.
pub proof fn lemma_output_within_reserve(amount_in: u64, reserve_in: u64, reserve_out: u64)
    requires
        denominator(amount_in, reserve_in) != 0,
    ensures
        0 <= output_amount(amount_in, reserve_in, reserve_out) <= reserve_out,
{
    let n = numerator(amount_in, reserve_out);
    let d = denominator(amount_in, reserve_in);
    assert(n <= d * reserve_out) by (nonlinear_arith)
        requires
            n == amount_in * reserve_out,
            d == reserve_in + amount_in,
    ;
    assert(0 <= n / d <= reserve_out) by (nonlinear_arith)
        requires
            0 <= n <= d * reserve_out,
            d > 0,
            reserve_out >= 0,
    ;
}

/// The output is the quotient rounded down: it never exceeds the exact
/// quotient, and one unit more would exceed it.
pub proof fn lemma_output_is_floor(amount_in: u64, reserve_in: u64, reserve_out: u64)
    requires
        denominator(amount_in, reserve_in) != 0,
    ensures
        output_amount(amount_in, reserve_in, reserve_out) * denominator(amount_in, reserve_in)
            <= numerator(amount_in, reserve_out),
        numerator(amount_in, reserve_out) < (output_amount(amount_in, reserve_in, reserve_out) + 1)
            * denominator(amount_in, reserve_in),
{
    let n = numerator(amount_in, reserve_out);
    let d = denominator(amount_in, reserve_in);
    assert((n / d) * d <= n < (n / d + 1) * d) by (nonlinear_arith)
        requires
            d > 0,
    ;
}

/// A trade never lowers the product of the two reserves: with the input
/// added to one reserve and the output taken from the other, the product is
/// at least what it was.
pub proof fn lemma_product_never_falls(amount_in: u64, reserve_in: u64, reserve_out: u64)
    requires
        denominator(amount_in, reserve_in) != 0,
    ensures
        (reserve_in + amount_in) * (reserve_out - output_amount(amount_in, reserve_in, reserve_out))
            >= reserve_in * reserve_out,
{
    let n = numerator(amount_in, reserve_out);
    let d = denominator(amount_in, reserve_in);
    let out = output_amount(amount_in, reserve_in, reserve_out);
    lemma_output_is_floor(amount_in, reserve_in, reserve_out);
    assert(d * (reserve_out - out) >= reserve_in * reserve_out) by (nonlinear_arith)
        requires
            out * d <= n,
            n == amount_in * reserve_out,
            d == reserve_in + amount_in,
    ;
}

/// Trading an output straight back never returns more than was paid in.
///
/// After a priceable trade of `amount_in` the reserves stand at
/// `reserve_in + amount_in` and `reserve_out - out`. Trading `out` back
/// against them is priceable exactly when `reserve_out` was not empty, and
/// then yields at most `amount_in`.
pub proof fn lemma_round_trip_never_profits(amount_in: u64, reserve_in: u64, reserve_out: u64)
    requires
        priceable(amount_in, reserve_in, reserve_out),
    ensures
        ({
            let out = output_amount(amount_in, reserve_in, reserve_out) as u64;
            let back_in = (reserve_out - out) as u64;
            let back_out = (reserve_in + amount_in) as u64;
            &&& out == output_amount(amount_in, reserve_in, reserve_out)
            &&& back_in == reserve_out - out
            &&& back_out == reserve_in + amount_in
            &&& priceable(out, back_in, back_out) <==> reserve_out != 0
            &&& reserve_out != 0 ==> output_amount(out, back_in, back_out) <= amount_in
        }),
{
    lemma_output_within_reserve(amount_in, reserve_in, reserve_out);
    lemma_output_is_floor(amount_in, reserve_in, reserve_out);
    let d = denominator(amount_in, reserve_in);
    let out = output_amount(amount_in, reserve_in, reserve_out);
    let n = numerator(amount_in, reserve_out);
    assert(out * d <= n);
    if reserve_out != 0 {
        assert((out * d) / (reserve_out as int) <= amount_in) by (nonlinear_arith)
            requires
                0 <= out * d <= amount_in * reserve_out,
                reserve_out > 0,
        ;
    }
}

} // verus!
