//! The two reserves of a pool and what a trade does to them.

use vstd::prelude::*;
use crate::curve::{
    calculate_swap_output, lemma_output_within_reserve, lemma_product_never_falls,
    lemma_round_trip_never_profits, numerator, output_amount, priceable,
};
use crate::error::SwapError;

verus! {

/// The balances that the two reserve accounts of a pool hold.
#[derive(Debug, Clone, Copy, PartialEq, Eq, Structural)]
pub struct Reserves {
    /// The balance of the first asset.
    pub reserve_a: u64,
    /// The balance of the second asset.
    pub reserve_b: u64,
}

impl Reserves {
    /// The reserve that a trade pays into: the first asset's where the trade
    /// goes from the first asset to the second, else the second's.
    pub open spec fn reserve_in(self, a_to_b: bool) -> u64 {
        if a_to_b {
            self.reserve_a
        } else {
            self.reserve_b
        }
    }

    /// The reserve that a trade is paid from.
    pub open spec fn reserve_out(self, a_to_b: bool) -> u64 {
        if a_to_b {
            self.reserve_b
        } else {
            self.reserve_a
        }
    }

    /// The product of the two reserves.
    pub open spec fn product(self) -> int {
        self.reserve_a * self.reserve_b
    }

    /// The answer to a trade request: `MathOverflow` where the trade is not
    /// priceable, `SlippageTooHigh` where the output is below the minimum,
    /// else the output.
    pub open spec fn quote_spec(self, amount_in: u64, minimum_amount_out: u64, a_to_b: bool) -> Result<
        u64,
        SwapError,
    > {
        let out = output_amount(amount_in, self.reserve_in(a_to_b), self.reserve_out(a_to_b));
        if !priceable(amount_in, self.reserve_in(a_to_b), self.reserve_out(a_to_b)) {
            Err(SwapError::MathOverflow)
        } else if out < minimum_amount_out {
            Err(SwapError::SlippageTooHigh)
        } else {
            Ok(out as u64)
        }
    }

    /// The reserves once `amount_in` has been paid into one and `amount_out`
    /// paid from the other.
    pub open spec fn after_trade(self, amount_in: u64, amount_out: u64, a_to_b: bool) -> Reserves {
        if a_to_b {
            Reserves {
                reserve_a: (self.reserve_a + amount_in) as u64,
                reserve_b: (self.reserve_b - amount_out) as u64,
            }
        } else {
            Reserves {
                reserve_a: (self.reserve_a - amount_out) as u64,
                reserve_b: (self.reserve_b + amount_in) as u64,
            }
        }
    }

    /// The answer to a trade request together with the reserves that it
    /// leaves: those after the trade where it succeeds, else the same.
    pub open spec fn swap_spec(self, amount_in: u64, minimum_amount_out: u64, a_to_b: bool) -> (
        Result<u64, SwapError>,
        Reserves,
    ) {
        match self.quote_spec(amount_in, minimum_amount_out, a_to_b) {
            Ok(out) => (Ok(out), self.after_trade(amount_in, out, a_to_b)),
            Err(error) => (Err(error), self),
        }
    }

    /// Prices a trade against the reserves and holds the output to the
    /// caller's minimum. The reserves are not changed.
    pub fn quote(&self, amount_in: u64, minimum_amount_out: u64, a_to_b: bool) -> (result: Result<
        u64,
        SwapError,
    >)
        ensures
            result == self.quote_spec(amount_in, minimum_amount_out, a_to_b),
            result matches Ok(out) ==> out <= self.reserve_out(a_to_b) && self.reserve_in(a_to_b)
                + amount_in <= u64::MAX,
    {
        let priced = if a_to_b {
            calculate_swap_output(amount_in, self.reserve_a, self.reserve_b)
        } else {
            calculate_swap_output(amount_in, self.reserve_b, self.reserve_a)
        };
        let amount_out: u64 = match priced {
            Ok(out) => out,
            Err(error) => { return Err(error); },
        };
        if amount_out < minimum_amount_out {
            return Err(SwapError::SlippageTooHigh);
        }
        Ok(amount_out)
    }

    /// Carries out a trade on the reserves: the input is added to one reserve
    /// and the output taken from the other.
    ///
    /// The trade is all or nothing. It fails with `MathOverflow` where it is
    /// not priceable and with `SlippageTooHigh` where the output is below
    /// `minimum_amount_out`; a failed trade leaves the reserves as they were.
    pub fn swap(&mut self, amount_in: u64, minimum_amount_out: u64, a_to_b: bool) -> (result: Result<
        u64,
        SwapError,
    >)
        ensures
            (result, *final(self)) == old(self).swap_spec(amount_in, minimum_amount_out, a_to_b),
            result is Err ==> *final(self) == *old(self),
            numerator(amount_in, old(self).reserve_out(a_to_b)) > u64::MAX ==> result == Err::<
                u64,
                SwapError,
            >(SwapError::MathOverflow),
            priceable(amount_in, old(self).reserve_in(a_to_b), old(self).reserve_out(a_to_b))
                && minimum_amount_out > output_amount(
                amount_in,
                old(self).reserve_in(a_to_b),
                old(self).reserve_out(a_to_b),
            ) ==> result == Err::<u64, SwapError>(SwapError::SlippageTooHigh),
            result matches Ok(out) ==> {
                &&& final(self).reserve_in(a_to_b) == old(self).reserve_in(a_to_b) + amount_in
                &&& final(self).reserve_out(a_to_b) == old(self).reserve_out(a_to_b) - out
                &&& final(self).product() >= old(self).product()
            },
    {
        let amount_out: u64 = match self.quote(amount_in, minimum_amount_out, a_to_b) {
            Ok(out) => out,
            Err(error) => { return Err(error); },
        };
        proof {
            lemma_trade_never_lowers_product(*self, amount_in, minimum_amount_out, a_to_b);
        }
        if a_to_b {
            self.reserve_a = self.reserve_a + amount_in;
            self.reserve_b = self.reserve_b - amount_out;
        } else {
            self.reserve_b = self.reserve_b + amount_in;
            self.reserve_a = self.reserve_a - amount_out;
        }
        Ok(amount_out)
    }
}

/// A successful trade never lowers the product of the reserves.
///
/// It adds exactly the input to one reserve and takes exactly the output
/// from the other, neither wrapping, and the product of the reserves after
/// the trade is at least the product before.
pub proof fn lemma_trade_never_lowers_product(
    reserves: Reserves,
    amount_in: u64,
    minimum_amount_out: u64,
    a_to_b: bool,
)
    requires
        reserves.swap_spec(amount_in, minimum_amount_out, a_to_b).0 is Ok,
    ensures
        ({
            let (result, after) = reserves.swap_spec(amount_in, minimum_amount_out, a_to_b);
            &&& after.reserve_in(a_to_b) == reserves.reserve_in(a_to_b) + amount_in
            &&& after.reserve_out(a_to_b) == reserves.reserve_out(a_to_b) - result->Ok_0
            &&& after.product() >= reserves.product()
        }),
{
    let reserve_in = reserves.reserve_in(a_to_b);
    let reserve_out = reserves.reserve_out(a_to_b);
    lemma_output_within_reserve(amount_in, reserve_in, reserve_out);
    lemma_product_never_falls(amount_in, reserve_in, reserve_out);
    let out = output_amount(amount_in, reserve_in, reserve_out);
    assert((reserve_out - out) * (reserve_in + amount_in) == (reserve_in + amount_in) * (reserve_out
        - out)) by (nonlinear_arith);
    assert(reserve_out * reserve_in == reserve_in * reserve_out) by (nonlinear_arith);
}

/// A failed trade changes no reserve, whatever made it fail.
pub proof fn lemma_failed_trade_changes_nothing(
    reserves: Reserves,
    amount_in: u64,
    minimum_amount_out: u64,
    a_to_b: bool,
)
    requires
        reserves.swap_spec(amount_in, minimum_amount_out, a_to_b).0 is Err,
    ensures
        reserves.swap_spec(amount_in, minimum_amount_out, a_to_b).1 == reserves,
{
}

/// A trade whose output is below the caller's minimum fails with
/// `SlippageTooHigh` and changes no reserve.
pub proof fn lemma_slippage_enforced(
    reserves: Reserves,
    amount_in: u64,
    minimum_amount_out: u64,
    a_to_b: bool,
)
    requires
        priceable(amount_in, reserves.reserve_in(a_to_b), reserves.reserve_out(a_to_b)),
        minimum_amount_out > output_amount(
            amount_in,
            reserves.reserve_in(a_to_b),
            reserves.reserve_out(a_to_b),
        ),
    ensures
        reserves.swap_spec(amount_in, minimum_amount_out, a_to_b) == (
            Err::<u64, SwapError>(SwapError::SlippageTooHigh),
            reserves,
        ),
{
}

/// A trade whose input times the output reserve does not fit in 64 bits
/// fails with `MathOverflow` and changes no reserve.
pub proof fn lemma_overflow_refused(
    reserves: Reserves,
    amount_in: u64,
    minimum_amount_out: u64,
    a_to_b: bool,
)
    requires
        amount_in * reserves.reserve_out(a_to_b) > u64::MAX,
    ensures
        reserves.swap_spec(amount_in, minimum_amount_out, a_to_b) == (
            Err::<u64, SwapError>(SwapError::MathOverflow),
            reserves,
        ),
{
}

/// A round trip never profits the trader.
///
/// Let a trade of `amount_in` with no minimum succeed and return `out`. The
/// trade of `out` in the other direction, on the reserves that the first
/// left and again with no minimum, succeeds exactly where the reserve that
/// paid `out` was not empty, and then returns at most `amount_in`. Where
/// that reserve was empty, `out` is zero and the trade back divides by zero.
pub proof fn lemma_round_trip_returns_no_more(reserves: Reserves, amount_in: u64, a_to_b: bool)
    requires
        reserves.swap_spec(amount_in, 0, a_to_b).0 is Ok,
    ensures
        ({
            let (first, between) = reserves.swap_spec(amount_in, 0, a_to_b);
            let (second, _) = between.swap_spec(first->Ok_0, 0, !a_to_b);
            &&& reserves.reserve_out(a_to_b) != 0 ==> second is Ok && second->Ok_0 <= amount_in
            &&& reserves.reserve_out(a_to_b) == 0 ==> second == Err::<u64, SwapError>(
                SwapError::MathOverflow,
            )
        }),
{
    lemma_trade_never_lowers_product(reserves, amount_in, 0, a_to_b);
    lemma_round_trip_never_profits(
        amount_in,
        reserves.reserve_in(a_to_b),
        reserves.reserve_out(a_to_b),
    );
}

} // verus!
