use anchor_lang::prelude::Pubkey;
use simple_swap::address::{
    address_seed, derive_pool_addresses, find_pool_address, find_vault_address,
};
use simple_swap::{
    initialize_pool, Address, InitializePool, Pool, PoolAddresses, PoolRegistry, SwapError,
};

fn address(fill: u8) -> Address {
    Address { bytes: [fill; 32] }
}

fn key(address: &Address) -> Pubkey {
    Pubkey::new_from_array(address.bytes)
}

#[test]
fn addresses_compare_by_their_bytes() {
    let mut bytes = [7u8; 32];
    assert!(address(7).same_as(&Address { bytes }));
    bytes[31] = 8;
    assert!(!address(7).same_as(&Address { bytes }));
    bytes[31] = 7;
    bytes[0] = 6;
    assert!(!address(7).same_as(&Address { bytes }));
}

#[test]
fn address_seed_is_the_address_bytes() {
    let mut bytes = [0u8; 32];
    for (i, byte) in bytes.iter_mut().enumerate() {
        *byte = i as u8;
    }
    assert_eq!(address_seed(&Address { bytes }), bytes.to_vec());
}

#[test]
fn pool_address_is_the_one_the_host_finds() {
    let program = address(9);
    let (mint_a, mint_b) = (address(1), address(2));
    let (expected, bump) = Pubkey::find_program_address(
        &[&b"pool"[..], &mint_a.bytes[..], &mint_b.bytes[..]],
        &key(&program),
    );
    let found = find_pool_address(&program, &mint_a, &mint_b).unwrap();
    assert_eq!(found, (Address { bytes: expected.to_bytes() }, bump));
    assert_ne!(found.0, program);
    assert_ne!(found.0, mint_a);
}

#[test]
fn pool_address_depends_on_the_order_of_the_assets() {
    let program = address(9);
    let forward = find_pool_address(&program, &address(1), &address(2)).unwrap();
    let backward = find_pool_address(&program, &address(2), &address(1)).unwrap();
    assert_ne!(forward.0, backward.0);
}

#[test]
fn vault_addresses_are_the_ones_the_host_finds() {
    let program = address(9);
    let pool = address(5);
    let (expected_a, _) =
        Pubkey::find_program_address(&[&b"vault_a"[..], &pool.bytes[..]], &key(&program));
    let (expected_b, _) =
        Pubkey::find_program_address(&[&b"vault_b"[..], &pool.bytes[..]], &key(&program));
    assert_eq!(
        find_vault_address(&program, &pool, true),
        Some(Address { bytes: expected_a.to_bytes() })
    );
    assert_eq!(
        find_vault_address(&program, &pool, false),
        Some(Address { bytes: expected_b.to_bytes() })
    );
    assert_ne!(expected_a, expected_b);
}

#[test]
fn derived_addresses_hang_together() {
    let program = address(9);
    let (mint_a, mint_b) = (address(1), address(2));
    let derived = derive_pool_addresses(&program, &mint_a, &mint_b).unwrap();
    let (pool, bump) = find_pool_address(&program, &mint_a, &mint_b).unwrap();
    assert_eq!(
        derived,
        PoolAddresses {
            pool,
            bump,
            vault_a: find_vault_address(&program, &pool, true).unwrap(),
            vault_b: find_vault_address(&program, &pool, false).unwrap(),
        }
    );
}

#[test]
fn signer_seeds_are_label_assets_and_bump() {
    let pool = Pool { authority: address(3), mint_a: address(1), mint_b: address(2), bump: 254 };
    assert_eq!(
        pool.signer_seeds(),
        vec![b"pool".to_vec(), vec![1u8; 32], vec![2u8; 32], vec![254u8]]
    );
}

#[test]
fn signer_seeds_stand_for_the_pool_address() {
    let program = address(9);
    let (mint_a, mint_b) = (address(1), address(2));
    let (pool_address, bump) = find_pool_address(&program, &mint_a, &mint_b).unwrap();
    let pool = Pool { authority: address(3), mint_a, mint_b, bump };
    assert_eq!(pool.signer_address(&program), Some(pool_address));
    let expected = Pubkey::create_program_address(
        &[&b"pool"[..], &mint_a.bytes[..], &mint_b.bytes[..], &[bump][..]],
        &key(&program),
    )
    .unwrap();
    assert_eq!(pool_address.bytes, expected.to_bytes());
}

#[test]
fn signer_address_follows_the_bump() {
    let program = address(9);
    let (mint_a, mint_b) = (address(1), address(2));
    let (pool_address, bump) = find_pool_address(&program, &mint_a, &mint_b).unwrap();
    let mut seen_other = false;
    for other in 0..=255u8 {
        if other == bump {
            continue;
        }
        let pool = Pool { authority: address(3), mint_a, mint_b, bump: other };
        let expected = Pubkey::create_program_address(
            &[&b"pool"[..], &mint_a.bytes[..], &mint_b.bytes[..], &[other][..]],
            &key(&program),
        )
        .ok()
        .map(|found| Address { bytes: found.to_bytes() });
        let found = pool.signer_address(&program);
        assert_eq!(found, expected);
        assert_ne!(found, Some(pool_address));
        seen_other = seen_other || found.is_some();
    }
    assert!(seen_other);
}

#[test]
fn pool_trades_its_pair_in_either_order() {
    let pool = Pool { authority: address(3), mint_a: address(1), mint_b: address(2), bump: 0 };
    assert!(pool.trades_pair(&address(1), &address(2)));
    assert!(pool.trades_pair(&address(2), &address(1)));
    assert!(!pool.trades_pair(&address(1), &address(1)));
    assert!(!pool.trades_pair(&address(1), &address(3)));
    assert!(!pool.trades_pair(&address(3), &address(2)));
}

fn blank() -> Pool {
    Pool { authority: address(0), mint_a: address(0), mint_b: address(0), bump: 0 }
}

fn creation(authority: u8, mint_a: u8, mint_b: u8) -> InitializePool {
    InitializePool {
        authority: address(authority),
        pool: blank(),
        mint_a: address(mint_a),
        mint_b: address(mint_b),
        bump: 0,
    }
}

#[test]
fn initialize_pool_fills_in_the_record() {
    let program = address(9);
    let mut registry = PoolRegistry::new(program);
    let mut ctx = creation(3, 1, 2);
    let entry = initialize_pool(&mut registry, &mut ctx).unwrap().unwrap();
    let derived = derive_pool_addresses(&program, &address(1), &address(2)).unwrap();
    let pool =
        Pool { authority: address(3), mint_a: address(1), mint_b: address(2), bump: derived.bump };
    assert_eq!(entry.pool, pool);
    assert_eq!(entry.address, derived.pool);
    assert_eq!(entry.vault_a, derived.vault_a);
    assert_eq!(entry.vault_b, derived.vault_b);
    assert_eq!(
        ctx,
        InitializePool {
            authority: address(3),
            pool,
            mint_a: address(1),
            mint_b: address(2),
            bump: derived.bump,
        }
    );
    assert_eq!(registry.len(), 1);
    assert_eq!(registry.locate_pool(&address(1), &address(2)), Ok(entry));
}

#[test]
fn second_initialization_for_a_pair_is_refused() {
    let mut registry = PoolRegistry::new(address(9));
    let first = initialize_pool(&mut registry, &mut creation(3, 1, 2)).unwrap().unwrap();
    let mut again = creation(3, 1, 2);
    assert_eq!(
        initialize_pool(&mut registry, &mut again),
        Some(Err(SwapError::AlreadyExists))
    );
    assert_eq!(again, creation(3, 1, 2));
    let mut other = creation(4, 1, 2);
    assert_eq!(
        initialize_pool(&mut registry, &mut other),
        Some(Err(SwapError::AlreadyExists))
    );
    assert_eq!(other, creation(4, 1, 2));
    assert_eq!(registry.len(), 1);
    assert_eq!(registry.locate_pool(&address(1), &address(2)), Ok(first));
}

#[test]
fn initialization_for_the_reversed_pair_is_refused() {
    let mut registry = PoolRegistry::new(address(9));
    let first = initialize_pool(&mut registry, &mut creation(3, 1, 2)).unwrap().unwrap();
    let mut reversed = creation(4, 2, 1);
    assert_eq!(
        initialize_pool(&mut registry, &mut reversed),
        Some(Err(SwapError::AlreadyExists))
    );
    assert_eq!(reversed, creation(4, 2, 1));
    assert_eq!(registry.len(), 1);
    assert_eq!(registry.locate_pool(&address(2), &address(1)), Ok(first));
    assert_eq!(first.pool.authority, address(3));
}

#[test]
fn addresses_do_not_depend_on_the_creator() {
    let mut one = PoolRegistry::new(address(9));
    let mut two = PoolRegistry::new(address(9));
    two.create_pool(address(5), address(6), address(7)).unwrap().unwrap();
    let first = initialize_pool(&mut one, &mut creation(3, 1, 2)).unwrap().unwrap();
    let second = initialize_pool(&mut two, &mut creation(4, 1, 2)).unwrap().unwrap();
    assert_eq!(first.address, second.address);
    assert_eq!(first.vault_a, second.vault_a);
    assert_eq!(first.vault_b, second.vault_b);
    assert_eq!(first.pool.bump, second.pool.bump);
    assert_eq!(first.pool.authority, address(3));
    assert_eq!(second.pool.authority, address(4));
}

#[test]
fn addresses_depend_on_the_program() {
    let mut one = PoolRegistry::new(address(9));
    let mut two = PoolRegistry::new(address(8));
    let first = initialize_pool(&mut one, &mut creation(3, 1, 2)).unwrap().unwrap();
    let second = initialize_pool(&mut two, &mut creation(3, 1, 2)).unwrap().unwrap();
    assert_ne!(first.address, second.address);
}

#[test]
fn initialized_record_derives_the_pool_address_again() {
    let program = address(9);
    let mut registry = PoolRegistry::new(program);
    let mut ctx = creation(3, 1, 2);
    let entry = initialize_pool(&mut registry, &mut ctx).unwrap().unwrap();
    assert_eq!(ctx.pool.signer_address(&program), Some(entry.address));
    let expected = Pubkey::create_program_address(
        &[&b"pool"[..], &[1u8; 32][..], &[2u8; 32][..], &[ctx.bump][..]],
        &key(&program),
    )
    .unwrap();
    assert_eq!(entry.address.bytes, expected.to_bytes());
}

#[test]
fn new_registry_is_empty() {
    let registry = PoolRegistry::new(address(9));
    assert_eq!(registry.len(), 0);
    assert_eq!(registry.locate_pool(&address(1), &address(2)), Err(SwapError::NotFound));
}

#[test]
fn created_pool_carries_its_derived_addresses() {
    let program = address(9);
    let mut registry = PoolRegistry::new(program);
    let entry = registry.create_pool(address(1), address(2), address(3)).unwrap().unwrap();
    let derived = derive_pool_addresses(&program, &address(1), &address(2)).unwrap();
    assert_eq!(entry.address, derived.pool);
    assert_eq!(entry.vault_a, derived.vault_a);
    assert_eq!(entry.vault_b, derived.vault_b);
    assert_eq!(
        entry.pool,
        Pool { authority: address(3), mint_a: address(1), mint_b: address(2), bump: derived.bump }
    );
    assert_eq!(entry.pool.signer_address(&program), Some(entry.address));
    assert_eq!(registry.len(), 1);
}

#[test]
fn second_creation_for_a_pair_is_refused() {
    let mut registry = PoolRegistry::new(address(9));
    let first = registry.create_pool(address(1), address(2), address(3)).unwrap();
    assert!(first.is_ok());
    assert_eq!(
        registry.create_pool(address(1), address(2), address(3)),
        Some(Err(SwapError::AlreadyExists))
    );
    assert_eq!(
        registry.create_pool(address(1), address(2), address(4)),
        Some(Err(SwapError::AlreadyExists))
    );
    assert_eq!(registry.len(), 1);
    assert_eq!(registry.locate_pool(&address(1), &address(2)), first);
}

#[test]
fn creation_for_the_reversed_pair_is_refused() {
    let mut registry = PoolRegistry::new(address(9));
    let first = registry.create_pool(address(1), address(2), address(3)).unwrap();
    assert_eq!(
        registry.create_pool(address(2), address(1), address(3)),
        Some(Err(SwapError::AlreadyExists))
    );
    assert_eq!(registry.len(), 1);
    assert_eq!(registry.locate_pool(&address(2), &address(1)), first);
}

#[test]
fn pools_of_other_pairs_are_kept_apart() {
    let mut registry = PoolRegistry::new(address(9));
    let first = registry.create_pool(address(1), address(2), address(3)).unwrap().unwrap();
    let second = registry.create_pool(address(1), address(4), address(3)).unwrap().unwrap();
    assert_ne!(first.address, second.address);
    assert_eq!(registry.len(), 2);
    assert_eq!(registry.locate_pool(&address(1), &address(2)), Ok(first));
    assert_eq!(registry.locate_pool(&address(4), &address(1)), Ok(second));
    assert_eq!(registry.locate_pool(&address(2), &address(4)), Err(SwapError::NotFound));
}

#[test]
fn pool_that_was_never_created_is_not_found() {
    let mut registry = PoolRegistry::new(address(9));
    registry.create_pool(address(1), address(2), address(3)).unwrap().unwrap();
    assert_eq!(registry.locate_pool(&address(1), &address(3)), Err(SwapError::NotFound));
}
