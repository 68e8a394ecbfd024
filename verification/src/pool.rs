//! The pool record, its delegated authority, and the registry that keeps one
//! pool per pair of assets.

use vstd::prelude::*;
use crate::address::{
    address_seed, create_program_address, created_program_address, derivable,
    derive_pool_addresses, pool_label_seed, pool_seeds, Address, PoolAddresses,
};
use crate::error::SwapError;

verus! {

/// The persistent record of a pool.
#[derive(Debug, Clone, Copy, PartialEq, Eq)]
pub struct Pool {
    /// The account that created the pool.
    pub authority: Address,
    /// The first asset of the pair.
    pub mint_a: Address,
    /// The second asset of the pair.
    pub mint_b: Address,
    /// The bump seed that completes the seeds of the pool's address.
    pub bump: u8,
}

impl Pool {
    /// The pool trades the two assets, in either order.
    pub open spec fn trades(self, mint_a: Address, mint_b: Address) -> bool {
        ||| self.mint_a == mint_a && self.mint_b == mint_b
        ||| self.mint_a == mint_b && self.mint_b == mint_a
    }

    /// The seeds by which the pool signs for its reserve accounts: the seeds
    /// of its address, completed by its bump seed.
    pub open spec fn signer_seeds_spec(self) -> Seq<Seq<u8>> {
        pool_seeds(self.mint_a, self.mint_b).push(seq![self.bump])
    }

    /// Tells whether the pool trades the two assets, in either order.
    pub fn trades_pair(&self, mint_a: &Address, mint_b: &Address) -> (trades: bool)
        ensures
            trades == self.trades(*mint_a, *mint_b),
    {
        (self.mint_a.same_as(mint_a) && self.mint_b.same_as(mint_b)) || (self.mint_a.same_as(
            mint_b,
        ) && self.mint_b.same_as(mint_a))
    }

    /// Builds the seeds by which the pool signs for its reserve accounts.
    pub fn signer_seeds(&self) -> (seeds: Vec<Vec<u8>>)
        ensures
            seeds.deep_view() == self.signer_seeds_spec(),
    {
        let mut seeds: Vec<Vec<u8>> = Vec::new();
        seeds.push(pool_label_seed());
        seeds.push(address_seed(&self.mint_a));
        seeds.push(address_seed(&self.mint_b));
        seeds.push(vec![self.bump]);
        assert(seeds.deep_view() =~~= self.signer_seeds_spec());
        seeds
    }

    /// Derives the address that the pool's signer seeds stand for under
    /// `program_id`: the only address the pool can sign for. Nothing is
    /// returned where the seeds yield no address.
    pub fn signer_address(&self, program_id: &Address) -> (address: Option<Address>)
        ensures
            match address {
                Some(found) => created_program_address(self.signer_seeds_spec(), program_id@)
                    == Some(found@),
                None => created_program_address(self.signer_seeds_spec(), program_id@) is None,
            },
    {
        let seeds = self.signer_seeds();
        match create_program_address(&seeds, program_id) {
            Ok(found) => Some(found),
            Err(_) => None,
        }
    }
}

/// The accounts of a request to initialise a pool.
#[derive(Debug, Clone, Copy, PartialEq, Eq)]
pub struct InitializePool {
    /// The account that creates the pool.
    pub authority: Address,
    /// The record to fill in; it is written only where the pool is created.
    pub pool: Pool,
    /// The first asset of the pair.
    pub mint_a: Address,
    /// The second asset of the pair.
    pub mint_b: Address,
    /// The bump seed of the pool's address; it is written only where the
    /// pool is created.
    pub bump: u8,
}

/// A registered pool: its record and the addresses derived for it.
#[derive(Debug, Clone, Copy, PartialEq, Eq)]
pub struct PoolEntry {
    /// The address of the pool, which is also the authority of its reserves.
    pub address: Address,
    /// The pool's record.
    pub pool: Pool,
    /// The reserve account of the first asset.
    pub vault_a: Address,
    /// The reserve account of the second asset.
    pub vault_b: Address,
}

impl PoolEntry {
    /// The entry's addresses, gathered as the derivation returns them.
    pub open spec fn addresses(self) -> PoolAddresses {
        PoolAddresses {
            pool: self.address,
            bump: self.pool.bump,
            vault_a: self.vault_a,
            vault_b: self.vault_b,
        }
    }

    /// Every address of the entry is the one that `program_id` derives for
    /// the pool's ordered pair of assets, and the pool's signer seeds stand
    /// for the pool's own address.
    pub open spec fn derived_under(self, program_id: Address) -> bool {
        self.addresses().derived_from(program_id, self.pool.mint_a, self.pool.mint_b)
    }
}

/// Some entry of `entries` trades the two assets, in either order.
pub open spec fn registered(entries: Seq<PoolEntry>, mint_a: Address, mint_b: Address) -> bool {
    exists|i: int| 0 <= i < entries.len() && (#[trigger] entries[i]).pool.trades(mint_a, mint_b)
}

/// No two entries of `entries` trade the same two assets.
pub open spec fn pairwise_distinct(entries: Seq<PoolEntry>) -> bool {
    forall|i: int, j: int|
        0 <= i < j < entries.len() ==> !(#[trigger] entries[i]).pool.trades(
            (#[trigger] entries[j]).pool.mint_a,
            entries[j].pool.mint_b,
        )
}

/// What a request to create a pool for `mint_a` and `mint_b` does to the
/// entries `before`: it is refused where the pair is registered already, it
/// has no answer where the pair has no addresses, and otherwise it appends
/// the derived entry, with `authority` as the pool's creator.
pub open spec fn creates(
    before: Seq<PoolEntry>,
    program_id: Address,
    mint_a: Address,
    mint_b: Address,
    authority: Address,
    answer: Option<Result<PoolEntry, SwapError>>,
    after: Seq<PoolEntry>,
) -> bool {
    if registered(before, mint_a, mint_b) {
        answer == Some(Err::<PoolEntry, SwapError>(SwapError::AlreadyExists)) && after == before
    } else if !derivable(program_id, mint_a, mint_b) {
        answer is None && after == before
    } else {
        &&& answer matches Some(Ok(entry))
        &&& entry.pool.authority == authority
        &&& entry.pool.mint_a == mint_a
        &&& entry.pool.mint_b == mint_b
        &&& entry.derived_under(program_id)
        &&& after == before.push(entry)
    }
}

/// The pools of one program, at most one for each pair of assets.
pub struct PoolRegistry {
    program_id: Address,
    entries: Vec<PoolEntry>,
}

impl View for PoolRegistry {
    type V = Seq<PoolEntry>;

    closed spec fn view(&self) -> Seq<PoolEntry> {
        self.entries@
    }
}

impl PoolRegistry {
    /// The program under which the registry derives its addresses.
    pub closed spec fn program_id(&self) -> Address {
        self.program_id
    }

    #[verifier::type_invariant]
    spec fn well_formed(&self) -> bool {
        &&& pairwise_distinct(self.entries@)
        &&& forall|i: int|
            0 <= i < self.entries@.len() ==> (#[trigger] self.entries@[i]).derived_under(
                self.program_id,
            )
    }

    /// An empty registry for the pools of `program_id`.
    pub fn new(program_id: Address) -> (registry: PoolRegistry)
        ensures
            registry@ == Seq::<PoolEntry>::empty(),
            registry.program_id() == program_id,
    {
        PoolRegistry { program_id, entries: Vec::new() }
    }

    /// Looks for the entry that trades the two assets, in either order.
    fn position(&self, mint_a: &Address, mint_b: &Address) -> (found: Option<usize>)
        ensures
            match found {
                Some(i) => i < self@.len() && self@[i as int].pool.trades(*mint_a, *mint_b),
                None => !registered(self@, *mint_a, *mint_b),
            },
    {
        let mut i: usize = 0;
        while i < self.entries.len()
            invariant
                i <= self.entries@.len(),
                forall|k: int| 0 <= k < i ==> !self.entries@[k].pool.trades(*mint_a, *mint_b),
            decreases self.entries@.len() - i,
        {
            if self.entries[i].pool.trades_pair(mint_a, mint_b) {
                return Some(i);
            }
            i += 1;
        }
        None
    }

    /// Creates the pool for a pair of assets and registers it with the
    /// addresses derived for it.
    ///
    /// The request is refused with `AlreadyExists`, and the registry left as
    /// it was, where a pool trades the two assets already, in either order.
    /// It has no answer, and no effect, where the pair has no addresses.
    pub fn create_pool(&mut self, mint_a: Address, mint_b: Address, authority: Address) -> (answer:
        Option<Result<PoolEntry, SwapError>>)
        ensures
            final(self).program_id() == old(self).program_id(),
            creates(
                old(self)@,
                old(self).program_id(),
                mint_a,
                mint_b,
                authority,
                answer,
                final(self)@,
            ),
            answer is Some ==> registered(final(self)@, mint_a, mint_b) && registered(
                final(self)@,
                mint_b,
                mint_a,
            ),
    {
        proof {
            use_type_invariant(&*self);
        }
        match self.position(&mint_a, &mint_b) {
            Some(i) => {
                assert(self@[i as int].pool.trades(mint_b, mint_a));
                return Some(Err(SwapError::AlreadyExists));
            },
            None => {},
        }
        let addresses = match derive_pool_addresses(&self.program_id, &mint_a, &mint_b) {
            Some(addresses) => addresses,
            None => { return None; },
        };
        let entry = PoolEntry {
            address: addresses.pool,
            pool: Pool { authority, mint_a, mint_b, bump: addresses.bump },
            vault_a: addresses.vault_a,
            vault_b: addresses.vault_b,
        };
        let mut entries: Vec<PoolEntry> = Vec::new();
        std::mem::swap(&mut self.entries, &mut entries);
        entries.push(entry);
        proof {
            let before = old(self)@;
            assert(addresses.derived_from(self.program_id, mint_a, mint_b));
            assert(entry.addresses() == addresses);
            assert forall|i: int| 0 <= i < before.len() implies !(#[trigger] entries@[i]).pool.trades(
                mint_a,
                mint_b,
            ) by {
                assert(entries@[i] == before[i]);
            }
            assert(pairwise_distinct(entries@));
        }
        std::mem::swap(&mut self.entries, &mut entries);
        proof {
            let last = self@.len() - 1;
            assert(self@[last].pool.trades(mint_a, mint_b));
            assert(self@[last].pool.trades(mint_b, mint_a));
        }
        Some(Ok(entry))
    }

    /// Finds the pool that trades the two assets, in either order.
    ///
    /// The request fails with `NotFound` where no such pool was created.
    /// Otherwise it returns the one entry for the pair, whose addresses are
    /// those that the registry's program derives for the pool's assets.
    pub fn locate_pool(&self, mint_a: &Address, mint_b: &Address) -> (result: Result<
        PoolEntry,
        SwapError,
    >)
        ensures
            match result {
                Ok(entry) => {
                    &&& self@.contains(entry)
                    &&& entry.pool.trades(*mint_a, *mint_b)
                    &&& entry.derived_under(self.program_id())
                    &&& forall|i: int|
                        0 <= i < self@.len() && (#[trigger] self@[i]).pool.trades(*mint_a, *mint_b)
                            ==> self@[i] == entry
                },
                Err(error) => error == SwapError::NotFound && !registered(self@, *mint_a, *mint_b),
            },
    {
        proof {
            use_type_invariant(self);
        }
        match self.position(mint_a, mint_b) {
            Some(i) => Ok(self.entries[i]),
            None => Err(SwapError::NotFound),
        }
    }

    /// The number of registered pools.
    pub fn len(&self) -> (count: usize)
        ensures
            count == self@.len(),
    {
        self.entries.len()
    }
}

/// Creates the pool that the request asks for, registers it, and fills in
/// the request's record and bump seed from the new entry.
///
/// The request is refused with `AlreadyExists` where a pool trades the two
/// assets already, in either order, and has no answer where the pair has no
/// addresses. Either way the registry and the request are left as they were:
/// the pool that exists keeps its creator, its assets and its bump seed.
pub fn initialize_pool(registry: &mut PoolRegistry, ctx: &mut InitializePool) -> (answer: Option<
    Result<PoolEntry, SwapError>,
>)
    ensures
        final(registry).program_id() == old(registry).program_id(),
        creates(
            old(registry)@,
            old(registry).program_id(),
            old(ctx).mint_a,
            old(ctx).mint_b,
            old(ctx).authority,
            answer,
            final(registry)@,
        ),
        answer matches Some(Ok(entry)) ==> *final(ctx) == (InitializePool {
            pool: entry.pool,
            bump: entry.pool.bump,
            ..*old(ctx)
        }),
        !(answer matches Some(Ok(_))) ==> *final(ctx) == *old(ctx),
        answer matches Some(Err(error)) ==> error == SwapError::AlreadyExists,
        answer is Some ==> registered(final(registry)@, old(ctx).mint_a, old(ctx).mint_b)
            && registered(final(registry)@, old(ctx).mint_b, old(ctx).mint_a),
{
    let answer = registry.create_pool(ctx.mint_a, ctx.mint_b, ctx.authority);
    match answer {
        Some(Ok(entry)) => {
            ctx.pool = entry.pool;
            ctx.bump = entry.pool.bump;
        },
        _ => {},
    }
    answer
}

/// The addresses of a pool follow from the program and the pair of assets
/// alone.
///
/// Two pools created for the same ordered pair under the same program, in
/// whatever registries and by whatever creators, have the same address, the
/// same bump seed and the same two reserve addresses. Only the creator that
/// their records name can differ.
pub proof fn lemma_addresses_follow_from_pair(
    program_id: Address,
    mint_a: Address,
    mint_b: Address,
    before: Seq<PoolEntry>,
    authority: Address,
    answer: Option<Result<PoolEntry, SwapError>>,
    after: Seq<PoolEntry>,
    other_before: Seq<PoolEntry>,
    other_authority: Address,
    other_answer: Option<Result<PoolEntry, SwapError>>,
    other_after: Seq<PoolEntry>,
)
    requires
        creates(before, program_id, mint_a, mint_b, authority, answer, after),
        creates(
            other_before,
            program_id,
            mint_a,
            mint_b,
            other_authority,
            other_answer,
            other_after,
        ),
        answer matches Some(Ok(_)),
        other_answer matches Some(Ok(_)),
    ensures
        ({
            let entry = answer->0->Ok_0;
            let other = other_answer->0->Ok_0;
            &&& entry.address == other.address
            &&& entry.vault_a == other.vault_a
            &&& entry.vault_b == other.vault_b
            &&& entry.pool.bump == other.pool.bump
            &&& entry.pool.mint_a == other.pool.mint_a
            &&& entry.pool.mint_b == other.pool.mint_b
            &&& entry.pool.authority == authority
            &&& other.pool.authority == other_authority
        }),
{
    let entry = answer->0->Ok_0;
    let other = other_answer->0->Ok_0;
    entry.address.lemma_view_injective(other.address);
    entry.vault_a.lemma_view_injective(other.vault_a);
    entry.vault_b.lemma_view_injective(other.vault_b);
}

/// A created pool signs for its own address.
///
/// The seeds built from the stored assets and the stored bump seed stand,
/// under the registry's program, for the address that the pool was given. A
/// later request that names the pair can so recompute the pool's address
/// from the record alone.
pub proof fn lemma_created_pool_signs_for_itself(
    program_id: Address,
    mint_a: Address,
    mint_b: Address,
    before: Seq<PoolEntry>,
    authority: Address,
    answer: Option<Result<PoolEntry, SwapError>>,
    after: Seq<PoolEntry>,
)
    requires
        creates(before, program_id, mint_a, mint_b, authority, answer, after),
        answer matches Some(Ok(_)),
    ensures
        created_program_address(answer->0->Ok_0.pool.signer_seeds_spec(), program_id@) == Some(
            answer->0->Ok_0.address@,
        ),
        registered(after, mint_a, mint_b),
        registered(after, mint_b, mint_a),
{
    let entry = answer->0->Ok_0;
    assert(after[before.len() as int] == entry);
    assert(after[before.len() as int].pool.trades(mint_a, mint_b));
    assert(after[before.len() as int].pool.trades(mint_b, mint_a));
}

/// A pair of assets gets at most one pool.
///
/// Once a request to create the pool for two assets has been answered, by
/// success or by refusal, every later request for the same two assets, in
/// the same or the other order and by any creator, is refused with
/// `AlreadyExists` and leaves the registry as it was.
pub proof fn lemma_second_creation_refused(
    before: Seq<PoolEntry>,
    program_id: Address,
    mint_a: Address,
    mint_b: Address,
    authority: Address,
    answer: Option<Result<PoolEntry, SwapError>>,
    between: Seq<PoolEntry>,
    swapped: bool,
    second_authority: Address,
    second_answer: Option<Result<PoolEntry, SwapError>>,
    after: Seq<PoolEntry>,
)
    requires
        creates(before, program_id, mint_a, mint_b, authority, answer, between),
        answer is Some,
        creates(
            between,
            program_id,
            if swapped { mint_b } else { mint_a },
            if swapped { mint_a } else { mint_b },
            second_authority,
            second_answer,
            after,
        ),
    ensures
        second_answer == Some(Err::<PoolEntry, SwapError>(SwapError::AlreadyExists)),
        after == between,
{
    if registered(before, mint_a, mint_b) {
        let i = choose|i: int| 0 <= i < before.len() && (#[trigger] before[i]).pool.trades(mint_a, mint_b);
        assert(between[i].pool.trades(mint_b, mint_a));
    } else {
        let entry = answer->0->Ok_0;
        assert(between[before.len() as int] == entry);
        assert(between[before.len() as int].pool.trades(mint_a, mint_b));
        assert(between[before.len() as int].pool.trades(mint_b, mint_a));
    }
}

} // verus!
