//! Account addresses and their deterministic derivation.

use anchor_lang::prelude::Pubkey;
use anchor_lang::solana_program::pubkey::PubkeyError;
use vstd::prelude::*;

verus! {

/// The error of the host's address derivation, carried as an opaque value.
#[verifier::external_type_specification]
#[verifier::external_body]
pub struct ExPubkeyError(PubkeyError);

/// What `Pubkey::try_find_program_address` returns for the given seeds and
/// program: the derived address and the bump seed that completes the seeds,
/// or nothing where no bump seed yields an address.
pub uninterp spec fn found_program_address(seeds: Seq<Seq<u8>>, program_id: Seq<u8>) -> Option<
    (Seq<u8>, u8),
>;

/// What `Pubkey::create_program_address` returns for the given seeds and
/// program, with its error dropped: the derived address, or nothing where the
/// seeds yield none.
pub uninterp spec fn created_program_address(seeds: Seq<Seq<u8>>, program_id: Seq<u8>) -> Option<
    Seq<u8>,
>;

/// The 32-byte address of an account, an asset type or a program.
#[derive(Debug, Clone, Copy, PartialEq, Eq)]
pub struct Address {
    pub bytes: [u8; 32],
}

impl View for Address {
    type V = Seq<u8>;

    open spec fn view(&self) -> Seq<u8> {
        self.bytes@
    }
}

impl Address {
    /// Two addresses with the same bytes are the same address.
    pub proof fn lemma_view_injective(self, other: Address)
        ensures
            self@.len() == 32,
            (self@ == other@) <==> (self == other),
    {
        if self@ == other@ {
            assert(self.bytes =~= other.bytes);
        }
    }

    /// Compares two addresses byte by byte.
    pub fn same_as(&self, other: &Address) -> (same: bool)
        ensures
            same == (*self == *other),
    {
        let mut i: usize = 0;
        while i < 32
            invariant
                i <= 32,
                forall|k: int| 0 <= k < i ==> self.bytes[k] == other.bytes[k],
            decreases 32 - i,
        {
            if self.bytes[i] != other.bytes[i] {
                return false;
            }
            i += 1;
        }
        proof {
            assert(self.bytes =~= other.bytes);
        }
        true
    }
}

/// Calls `Pubkey::try_find_program_address`. Not proved: the result is the
/// one named by [`found_program_address`], and where an address is found it
/// is the one that `Pubkey::create_program_address` derives from the same
/// seeds followed by the one-byte bump seed, as the search in the host's
/// source returns exactly such an address.
#[verifier::external_body]
pub(crate) fn try_find_program_address(seeds: &Vec<Vec<u8>>, program_id: &Address) -> (found: Option<
    (Address, u8),
>)
    ensures
        match found {
            Some((address, bump)) => {
                &&& found_program_address(seeds.deep_view(), program_id@) == Some((address@, bump))
                &&& created_program_address(seeds.deep_view().push(seq![bump]), program_id@)
                    == Some(address@)
            },
            None => found_program_address(seeds.deep_view(), program_id@) is None,
        },
{
    let parts: Vec<&[u8]> = seeds.iter().map(|seed| seed.as_slice()).collect();
    let program = Pubkey::new_from_array(program_id.bytes);
    Pubkey::try_find_program_address(&parts, &program).map(
        |(key, bump)| (Address { bytes: key.to_bytes() }, bump),
    )
}

/// Calls `Pubkey::create_program_address`. Not proved: it succeeds exactly
/// where [`created_program_address`] names an address, and then returns it.
#[verifier::external_body]
pub(crate) fn create_program_address(seeds: &Vec<Vec<u8>>, program_id: &Address) -> (created: Result<
    Address,
    PubkeyError,
>)
    ensures
        match created {
            Ok(address) => created_program_address(seeds.deep_view(), program_id@) == Some(
                address@,
            ),
            Err(_) => created_program_address(seeds.deep_view(), program_id@) is None,
        },
{
    let parts: Vec<&[u8]> = seeds.iter().map(|seed| seed.as_slice()).collect();
    let program = Pubkey::new_from_array(program_id.bytes);
    Pubkey::create_program_address(&parts, &program).map(|key| Address { bytes: key.to_bytes() })
}

/// The label that starts the seeds of a pool's address: the text `pool`.
pub open spec fn pool_label() -> Seq<u8> {
    seq![112u8, 111u8, 111u8, 108u8]
}

/// The label that starts the seeds of a pool's first reserve account: the
/// text `vault_a`.
pub open spec fn vault_a_label() -> Seq<u8> {
    seq![118u8, 97u8, 117u8, 108u8, 116u8, 95u8, 97u8]
}

/// The label that starts the seeds of a pool's second reserve account: the
/// text `vault_b`.
pub open spec fn vault_b_label() -> Seq<u8> {
    seq![118u8, 97u8, 117u8, 108u8, 116u8, 95u8, 98u8]
}

/// The seeds of the pool for an ordered pair of assets.
pub open spec fn pool_seeds(mint_a: Address, mint_b: Address) -> Seq<Seq<u8>> {
    seq![pool_label(), mint_a@, mint_b@]
}

/// The seeds of a reserve account of the pool at `pool_address`.
pub open spec fn vault_seeds(label: Seq<u8>, pool_address: Address) -> Seq<Seq<u8>> {
    seq![label, pool_address@]
}

/// The address that the derivation finds for `seeds`, without its bump seed.
pub open spec fn found_address(seeds: Seq<Seq<u8>>, program_id: Address) -> Option<Seq<u8>> {
    match found_program_address(seeds, program_id@) {
        Some((address, _)) => Some(address),
        None => None,
    }
}

/// The addresses of a pool and of its two reserve accounts, with the bump
/// seed that completes the pool's seeds.
#[derive(Debug, Clone, Copy, PartialEq, Eq)]
pub struct PoolAddresses {
    pub pool: Address,
    pub bump: u8,
    pub vault_a: Address,
    pub vault_b: Address,
}

impl PoolAddresses {
    /// These are the addresses that `program_id` derives for the ordered
    /// pair of assets, and the pair's seeds completed by the bump seed stand
    /// for the pool's address.
    pub open spec fn derived_from(self, program_id: Address, mint_a: Address, mint_b: Address) -> bool {
        &&& found_program_address(pool_seeds(mint_a, mint_b), program_id@) == Some(
            (self.pool@, self.bump),
        )
        &&& created_program_address(pool_seeds(mint_a, mint_b).push(seq![self.bump]), program_id@)
            == Some(self.pool@)
        &&& found_address(vault_seeds(vault_a_label(), self.pool), program_id) == Some(
            self.vault_a@,
        )
        &&& found_address(vault_seeds(vault_b_label(), self.pool), program_id) == Some(
            self.vault_b@,
        )
    }
}

/// The pair of assets has a pool address under `program_id`, and that
/// address has both reserve addresses.
pub open spec fn derivable(program_id: Address, mint_a: Address, mint_b: Address) -> bool {
    exists|addresses: PoolAddresses| addresses.derived_from(program_id, mint_a, mint_b)
}

/// Builds the label that starts the seeds of a pool's address.
pub fn pool_label_seed() -> (seed: Vec<u8>)
    ensures
        seed@ == pool_label(),
{
    vec![112u8, 111u8, 111u8, 108u8]
}

/// Builds the label that starts the seeds of a pool's reserve account: that
/// of the first asset (`first`), or of the second.
pub fn vault_label_seed(first: bool) -> (seed: Vec<u8>)
    ensures
        seed@ == if first { vault_a_label() } else { vault_b_label() },
{
    let side: u8 = if first { 97u8 } else { 98u8 };
    vec![118u8, 97u8, 117u8, 108u8, 116u8, 95u8, side]
}

/// Copies an address into a seed.
pub fn address_seed(address: &Address) -> (seed: Vec<u8>)
    ensures
        seed@ == address@,
{
    let mut seed: Vec<u8> = Vec::new();
    let mut i: usize = 0;
    while i < 32
        invariant
            i <= 32,
            seed@ == address@.subrange(0, i as int),
        decreases 32 - i,
    {
        seed.push(address.bytes[i]);
        i += 1;
    }
    seed
}

/// Derives the address of the pool for an ordered pair of assets, and the
/// bump seed that completes its seeds.
pub fn find_pool_address(program_id: &Address, mint_a: &Address, mint_b: &Address) -> (found:
    Option<(Address, u8)>)
    ensures
        match found {
            Some((address, bump)) => {
                &&& found_program_address(pool_seeds(*mint_a, *mint_b), program_id@) == Some(
                    (address@, bump),
                )
                &&& created_program_address(
                    pool_seeds(*mint_a, *mint_b).push(seq![bump]),
                    program_id@,
                ) == Some(address@)
            },
            None => found_program_address(pool_seeds(*mint_a, *mint_b), program_id@) is None,
        },
{
    let mut seeds: Vec<Vec<u8>> = Vec::new();
    seeds.push(pool_label_seed());
    seeds.push(address_seed(mint_a));
    seeds.push(address_seed(mint_b));
    assert(seeds.deep_view() =~~= pool_seeds(*mint_a, *mint_b));
    try_find_program_address(&seeds, program_id)
}

/// Derives the address of the reserve account that holds the first asset
/// (`first`), or the second, of the pool at `pool_address`.
pub fn find_vault_address(program_id: &Address, pool_address: &Address, first: bool) -> (found:
    Option<Address>)
    ensures
        match found {
            Some(address) => found_address(
                vault_seeds(if first { vault_a_label() } else { vault_b_label() }, *pool_address),
                *program_id,
            ) == Some(address@),
            None => found_address(
                vault_seeds(if first { vault_a_label() } else { vault_b_label() }, *pool_address),
                *program_id,
            ) is None,
        },
{
    let mut seeds: Vec<Vec<u8>> = Vec::new();
    seeds.push(vault_label_seed(first));
    seeds.push(address_seed(pool_address));
    assert(seeds.deep_view() =~~= vault_seeds(
        if first { vault_a_label() } else { vault_b_label() },
        *pool_address,
    ));
    match try_find_program_address(&seeds, program_id) {
        Some((address, _)) => Some(address),
        None => None,
    }
}

/// Derives every address of the pool for an ordered pair of assets. Nothing
/// is returned where one of the three derivations finds no address.
pub fn derive_pool_addresses(program_id: &Address, mint_a: &Address, mint_b: &Address) -> (derived:
    Option<PoolAddresses>)
    ensures
        match derived {
            Some(addresses) => addresses.derived_from(*program_id, *mint_a, *mint_b),
            None => !derivable(*program_id, *mint_a, *mint_b),
        },
{
    let (pool, bump) = match find_pool_address(program_id, mint_a, mint_b) {
        Some(found) => found,
        None => { return None; },
    };
    let vault_a = match find_vault_address(program_id, &pool, true) {
        Some(address) => address,
        None => {
            proof { lemma_derived_once(*program_id, *mint_a, *mint_b, pool); }
            return None;
        },
    };
    let vault_b = match find_vault_address(program_id, &pool, false) {
        Some(address) => address,
        None => {
            proof { lemma_derived_once(*program_id, *mint_a, *mint_b, pool); }
            return None;
        },
    };
    Some(PoolAddresses { pool, bump, vault_a, vault_b })
}

/// Any derived set of addresses holds the pool address that the derivation
/// finds.
proof fn lemma_derived_once(program_id: Address, mint_a: Address, mint_b: Address, pool: Address)
    requires
        found_address(pool_seeds(mint_a, mint_b), program_id) == Some(pool@),
    ensures
        forall|addresses: PoolAddresses| #[trigger]
            addresses.derived_from(program_id, mint_a, mint_b) ==> addresses.pool == pool,
{
    assert forall|addresses: PoolAddresses| #[trigger]
        addresses.derived_from(program_id, mint_a, mint_b) implies addresses.pool == pool by {
        addresses.pool.lemma_view_injective(pool);
    }
}

} // verus!
