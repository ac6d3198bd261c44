use sea_amm::address::{
    derive_pool_address, derive_share_token_address, derive_vault_a_address,
    derive_vault_b_address,
};
use sea_amm::{
    add_liquidity, create_pool, create_pool_handler, remove_liquidity, swap, wrapped_index,
    AmmError, Empty, Identity, LoadedPool, Pool, Reserves,
};

fn asset(tag: u8) -> Identity {
    let mut bytes = [0u8; 32];
    bytes[0] = tag;
    bytes[31] = 7;
    Identity::new(bytes)
}

fn record() -> Pool {
    Pool {
        bump: 254,
        authority: asset(9),
        token_mint_a: asset(1),
        token_mint_b: asset(2),
        token_vault_a: asset(3),
        token_vault_b: asset(4),
        lp_token_mint: asset(5),
    }
}

#[test]
fn blank_record_is_all_zero() {
    let zero = Identity::new([0u8; 32]);
    assert_eq!(
        Pool::blank(),
        Pool {
            bump: 0,
            authority: zero,
            token_mint_a: zero,
            token_mint_b: zero,
            token_vault_a: zero,
            token_vault_b: zero,
            lp_token_mint: zero,
        }
    );
}

#[test]
fn load_copies_the_record_beside_its_address() {
    let loaded = Pool::load(&asset(6), &record());
    assert_eq!(
        loaded,
        LoadedPool {
            key: asset(6),
            bump: 254,
            authority: asset(9),
            token_mint_a: asset(1),
            token_mint_b: asset(2),
            token_vault_a: asset(3),
            token_vault_b: asset(4),
            lp_token_mint: asset(5),
        }
    );
}

#[test]
fn store_writes_every_field_back() {
    let mut loaded = Pool::load(&asset(6), &Pool::blank());
    loaded.bump = 254;
    loaded.authority = asset(9);
    loaded.token_mint_a = asset(1);
    loaded.token_mint_b = asset(2);
    loaded.token_vault_a = asset(3);
    loaded.token_vault_b = asset(4);
    loaded.lp_token_mint = asset(5);
    let mut account = Pool::blank();
    Pool::store(&loaded, &mut account);
    assert_eq!(account, record());
}

#[test]
fn store_after_load_keeps_the_record() {
    let mut account = record();
    let loaded = Pool::load(&asset(6), &account);
    Pool::store(&loaded, &mut account);
    assert_eq!(account, record());
}

#[test]
fn create_pool_handler_fills_in_the_record() {
    let blank = Pool::load(&asset(6), &Pool::blank());
    let created = create_pool_handler(
        &asset(9),
        Empty { account: blank, bump: Some(254) },
        &asset(1),
        &asset(2),
        Empty { account: asset(3), bump: Some(1) },
        Empty { account: asset(4), bump: Some(2) },
        Empty { account: asset(5), bump: None },
    );
    assert_eq!(created, Pool::load(&asset(6), &record()));
}

#[test]
fn create_pool_binds_the_derived_identities() {
    let (a, b) = (asset(1), asset(2));
    let (key, pool) = create_pool(&asset(9), &a, &b).unwrap();
    let (pool_key, bump) = derive_pool_address(&a, &b).unwrap();
    assert_eq!(key, pool_key);
    assert_eq!(
        pool,
        Pool {
            bump,
            authority: asset(9),
            token_mint_a: a,
            token_mint_b: b,
            token_vault_a: derive_vault_a_address(&a).unwrap().0,
            token_vault_b: derive_vault_b_address(&b).unwrap().0,
            lp_token_mint: derive_share_token_address(&a, &b).unwrap().0,
        }
    );
}

#[test]
fn created_pool_takes_deposits_swaps_and_withdrawals() {
    let (a, b) = (asset(1), asset(2));
    let (key, mut pool) = create_pool(&asset(9), &a, &b).unwrap();
    let created = pool;
    let share = pool.lp_token_mint;
    let mut reserves = Reserves::new();
    assert_eq!(
        add_liquidity(&key, &mut pool, &a, &b, &share, &mut reserves, 1000, 2000),
        Ok(4_000_000_000_000)
    );
    assert_eq!(swap(&key, &mut pool, &a, 100, &a, &b, &mut reserves), Ok(181));
    assert_eq!(
        reserves,
        Reserves { vault_a: 1100, vault_b: 1819, total_shares: 4_000_000_000_000 }
    );
    assert_eq!(
        remove_liquidity(&key, &mut pool, &a, &b, &share, &mut reserves, 1_000_000_000_000),
        Ok((275, 454))
    );
    assert_eq!(
        reserves,
        Reserves { vault_a: 825, vault_b: 1365, total_shares: 3_000_000_000_000 }
    );
    assert_eq!(pool, created);
}

#[test]
fn instructions_refuse_a_pool_stored_elsewhere() {
    let (a, b) = (asset(1), asset(2));
    let (_, mut pool) = create_pool(&asset(9), &a, &b).unwrap();
    let created = pool;
    let share = pool.lp_token_mint;
    let mut reserves = Reserves::new();
    let elsewhere = asset(6);
    assert_eq!(
        add_liquidity(&elsewhere, &mut pool, &a, &b, &share, &mut reserves, 1000, 2000),
        Err(AmmError::InvalidPoolIdentity)
    );
    assert_eq!(
        remove_liquidity(&elsewhere, &mut pool, &a, &b, &share, &mut reserves, 1),
        Err(AmmError::InvalidPoolIdentity)
    );
    assert_eq!(
        swap(&elsewhere, &mut pool, &a, 100, &a, &b, &mut reserves),
        Err(AmmError::InvalidPoolIdentity)
    );
    assert_eq!(reserves, Reserves::new());
    assert_eq!(pool, created);
}

#[test]
fn wrapped_index_counts_from_either_end() {
    assert_eq!(wrapped_index(5, 0), 0);
    assert_eq!(wrapped_index(5, 2), 2);
    assert_eq!(wrapped_index(5, 7), 7);
    assert_eq!(wrapped_index(5, -1), 4);
    assert_eq!(wrapped_index(5, -5), 0);
    assert_eq!(wrapped_index(0, 0), 0);
    assert_eq!(wrapped_index(usize::MAX, -1), usize::MAX - 1);
    assert_eq!(wrapped_index(3, usize::MAX as i128), usize::MAX);
}
