//! Liquidity intake: deposits of both assets into a pool's reserves.

use vstd::prelude::*;
use crate::address::Address;
use crate::error::SwapError;
use crate::pool::{registered, Pool, PoolRegistry};
use crate::swap::ReserveAccount;
use crate::transfer::{Settlement, Stage, Transfer, TransferView};

verus! {

/// The accounts of a request to add liquidity.
#[derive(Debug, Clone, Copy, PartialEq, Eq)]
pub struct AddLiquidity {
    /// The depositor, who authorises both transfers.
    pub user: Address,
    /// The address of the pool.
    pub pool_address: Address,
    /// The pool's record.
    pub pool: Pool,
    /// The depositor's account of the first asset.
    pub user_token_a: Address,
    /// The depositor's account of the second asset.
    pub user_token_b: Address,
    /// The pool's reserve of the first asset.
    pub vault_a: ReserveAccount,
    /// The pool's reserve of the second asset.
    pub vault_b: ReserveAccount,
}

impl AddLiquidity {
    /// The deposit of the first asset: `amount_a` from the depositor's
    /// account to the pool's reserve, authorised by the depositor.
    pub open spec fn deposit_a(self, amount_a: u64) -> TransferView {
        TransferView {
            from: self.user_token_a,
            to: self.vault_a.address,
            authority: self.user,
            amount: amount_a,
            signer_seeds: Seq::empty(),
        }
    }

    /// The deposit of the second asset: `amount_b` from the depositor's
    /// account to the pool's reserve, authorised by the depositor.
    pub open spec fn deposit_b(self, amount_b: u64) -> TransferView {
        TransferView {
            from: self.user_token_b,
            to: self.vault_b.address,
            authority: self.user,
            amount: amount_b,
            signer_seeds: Seq::empty(),
        }
    }
}

/// Finds the pool of the request and lays out the two transfers of a
/// deposit: the first asset, then the second, each from the depositor to the
/// pool's reserve and authorised by the depositor.
///
/// The deposit fails with `NotFound`, and lays out nothing, where no pool is
/// registered for the pair of assets that the request's pool record names.
/// The amounts are taken as given, in whatever proportion; nothing is
/// returned to the depositor.
pub fn add_liquidity(registry: &PoolRegistry, ctx: &AddLiquidity, amount_a: u64, amount_b: u64) -> (result:
    Result<Settlement, SwapError>)
    ensures
        !registered(registry@, ctx.pool.mint_a, ctx.pool.mint_b) ==> (result matches Err(refusal)
            && refusal == SwapError::NotFound),
        registered(registry@, ctx.pool.mint_a, ctx.pool.mint_b) ==> {
            &&& result matches Ok(settlement)
            &&& settlement.stage == Stage::First
            &&& settlement.first@ == ctx.deposit_a(amount_a)
            &&& settlement.second@ == ctx.deposit_b(amount_b)
        },
{
    match registry.locate_pool(&ctx.pool.mint_a, &ctx.pool.mint_b) {
        Ok(_) => {},
        Err(error) => { return Err(error); },
    }
    let first = Transfer {
        from: ctx.user_token_a,
        to: ctx.vault_a.address,
        authority: ctx.user,
        amount: amount_a,
        signer_seeds: Vec::new(),
    };
    let second = Transfer {
        from: ctx.user_token_b,
        to: ctx.vault_b.address,
        authority: ctx.user,
        amount: amount_b,
        signer_seeds: Vec::new(),
    };
    assert(first.signer_seeds.deep_view() =~= Seq::<Seq<u8>>::empty());
    assert(second.signer_seeds.deep_view() =~= Seq::<Seq<u8>>::empty());
    Ok(Settlement::new(first, second))
}

} // verus!
