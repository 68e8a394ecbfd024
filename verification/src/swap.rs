//! The swap engine: pricing a trade against fresh reserves and laying out
//! the two transfers that settle it.

use vstd::prelude::*;
use crate::address::Address;
use crate::error::{SwapError, TransferError};
use crate::pool::{registered, Pool, PoolRegistry};
use crate::reserves::Reserves;
use crate::transfer::{
    lemma_settles_by_two_successes, Settlement, Stage, Transfer, TransferView,
};

verus! {

/// A reserve account of a pool as it was read from the custody layer.
#[derive(Debug, Clone, Copy, PartialEq, Eq)]
pub struct ReserveAccount {
    /// The address of the account.
    pub address: Address,
    /// The balance that the account held when it was read.
    pub amount: u64,
}

/// The accounts of a swap request.
#[derive(Debug, Clone, Copy, PartialEq, Eq)]
pub struct Swap {
    /// The trader, who authorises the transfer into the pool.
    pub user: Address,
    /// The address of the pool, which authorises the transfer out of it.
    pub pool_address: Address,
    /// The pool's record.
    pub pool: Pool,
    /// The trader's account of the first asset.
    pub user_token_a: Address,
    /// The trader's account of the second asset.
    pub user_token_b: Address,
    /// The pool's reserve of the first asset.
    pub vault_a: ReserveAccount,
    /// The pool's reserve of the second asset.
    pub vault_b: ReserveAccount,
}

impl Swap {
    /// The balances of the two reserve accounts of the request.
    pub open spec fn reserves(self) -> Reserves {
        Reserves { reserve_a: self.vault_a.amount, reserve_b: self.vault_b.amount }
    }

    /// The transfer into the pool: `amount_in` of the input asset from the
    /// trader's account to the pool's reserve, authorised by the trader.
    pub open spec fn inbound(self, amount_in: u64, a_to_b: bool) -> TransferView {
        TransferView {
            from: if a_to_b { self.user_token_a } else { self.user_token_b },
            to: if a_to_b { self.vault_a.address } else { self.vault_b.address },
            authority: self.user,
            amount: amount_in,
            signer_seeds: Seq::empty(),
        }
    }

    /// The transfer out of the pool: `amount_out` of the output asset from
    /// the pool's reserve to the trader's account, authorised by the pool
    /// through its signer seeds.
    pub open spec fn outbound(self, amount_out: u64, a_to_b: bool) -> TransferView {
        TransferView {
            from: if a_to_b { self.vault_b.address } else { self.vault_a.address },
            to: if a_to_b { self.user_token_b } else { self.user_token_a },
            authority: self.pool_address,
            amount: amount_out,
            signer_seeds: self.pool.signer_seeds_spec(),
        }
    }
}

/// A swap that passed every check, ready to be settled.
#[derive(Debug, Clone, PartialEq, Eq)]
pub struct SwapPlan {
    /// The amount of the output asset that the trader receives.
    pub amount_out: u64,
    /// The balances that the two reserve accounts held when the swap was
    /// priced.
    pub reserves_before: Reserves,
    /// The balances that the two reserve accounts hold once both transfers
    /// went through.
    pub reserves_after: Reserves,
    /// The transfer into the pool, then the transfer out of it.
    pub settlement: Settlement,
}

impl SwapPlan {
    /// The reserves that stand when the settlement is at `stage`: those
    /// after the trade once both legs went through, and those before it at
    /// every other stage, since a swap is all or nothing.
    pub open spec fn reserves_at(self, stage: Stage) -> Reserves {
        if stage == Stage::Settled {
            self.reserves_after
        } else {
            self.reserves_before
        }
    }

    /// The reserves that stand at the stage that the settlement has reached.
    pub open spec fn standing_reserves(self) -> Reserves {
        self.reserves_at(self.settlement.stage)
    }

    /// The reserves that stand now: those after the trade once both legs
    /// went through, else those before it.
    pub fn reserves(&self) -> (reserves: Reserves)
        ensures
            reserves == self.standing_reserves(),
    {
        match self.settlement.stage {
            Stage::Settled => self.reserves_after,
            _ => self.reserves_before,
        }
    }
}

/// Reads the balances of the pool's two reserve accounts from the request.
pub fn current_reserves(ctx: &Swap) -> (reserves: Reserves)
    ensures
        reserves == ctx.reserves(),
{
    Reserves { reserve_a: ctx.vault_a.amount, reserve_b: ctx.vault_b.amount }
}

/// Finds the pool of the request, prices the swap against the reserves of
/// the request, holds the output to the caller's minimum, and lays out the
/// two transfers that settle it.
///
/// The swap fails with `NotFound` where no pool is registered for the pair
/// of assets that the request's pool record names. Else it fails with
/// `MathOverflow` where the trade is not priceable and with
/// `SlippageTooHigh` where the output is below `minimum_amount_out`. A
/// failed swap lays out no transfer. A successful one lays out the transfer
/// into the pool first and the transfer out of it second, none of them
/// carried out yet.
pub fn swap(
    registry: &PoolRegistry,
    ctx: &Swap,
    amount_in: u64,
    minimum_amount_out: u64,
    a_to_b: bool,
) -> (result: Result<SwapPlan, SwapError>)
    ensures
        !registered(registry@, ctx.pool.mint_a, ctx.pool.mint_b) ==> (result matches Err(refusal)
            && refusal == SwapError::NotFound),
        registered(registry@, ctx.pool.mint_a, ctx.pool.mint_b) ==> match ctx.reserves().swap_spec(
            amount_in,
            minimum_amount_out,
            a_to_b,
        ) {
            (Ok(amount_out), reserves_after) => {
                &&& result matches Ok(plan)
                &&& plan.amount_out == amount_out
                &&& plan.reserves_before == ctx.reserves()
                &&& plan.reserves_after == reserves_after
                &&& plan.standing_reserves() == ctx.reserves()
                &&& plan.settlement.stage == Stage::First
                &&& plan.settlement.first@ == ctx.inbound(amount_in, a_to_b)
                &&& plan.settlement.second@ == ctx.outbound(amount_out, a_to_b)
            },
            (Err(error), _) => result matches Err(refusal) && refusal == error,
        },
{
    match registry.locate_pool(&ctx.pool.mint_a, &ctx.pool.mint_b) {
        Ok(_) => {},
        Err(error) => { return Err(error); },
    }
    let reserves_before = current_reserves(ctx);
    let mut reserves = reserves_before;
    let amount_out: u64 = match reserves.swap(amount_in, minimum_amount_out, a_to_b) {
        Ok(out) => out,
        Err(error) => { return Err(error); },
    };
    let inbound = if a_to_b {
        Transfer {
            from: ctx.user_token_a,
            to: ctx.vault_a.address,
            authority: ctx.user,
            amount: amount_in,
            signer_seeds: Vec::new(),
        }
    } else {
        Transfer {
            from: ctx.user_token_b,
            to: ctx.vault_b.address,
            authority: ctx.user,
            amount: amount_in,
            signer_seeds: Vec::new(),
        }
    };
    let outbound = if a_to_b {
        Transfer {
            from: ctx.vault_b.address,
            to: ctx.user_token_b,
            authority: ctx.pool_address,
            amount: amount_out,
            signer_seeds: ctx.pool.signer_seeds(),
        }
    } else {
        Transfer {
            from: ctx.vault_a.address,
            to: ctx.user_token_a,
            authority: ctx.pool_address,
            amount: amount_out,
            signer_seeds: ctx.pool.signer_seeds(),
        }
    };
    assert(inbound.signer_seeds.deep_view() =~= Seq::<Seq<u8>>::empty());
    Ok(
        SwapPlan {
            amount_out,
            reserves_before,
            reserves_after: reserves,
            settlement: Settlement::new(inbound, outbound),
        },
    )
}

/// A swap whose settlement does not go through changes no reserve.
///
/// Whatever the custody layer answers for the legs of a plan, the reserves
/// that stand are those after the trade exactly where the first two answers
/// are successes. In every other run, and so wherever a leg is refused, they
/// are the reserves from before the trade.
pub proof fn lemma_failed_settlement_changes_nothing(
    plan: SwapPlan,
    outcomes: Seq<Result<(), TransferError>>,
)
    ensures
        ({
            let stage = Stage::First.after_all(outcomes);
            let settled = outcomes.len() >= 2 && outcomes[0] is Ok && outcomes[1] is Ok;
            &&& settled ==> plan.reserves_at(stage) == plan.reserves_after
            &&& !settled ==> plan.reserves_at(stage) == plan.reserves_before
            &&& stage.result() matches Some(Err(_)) ==> plan.reserves_at(stage)
                == plan.reserves_before
        }),
{
    lemma_settles_by_two_successes(outcomes);
}

} // verus!
