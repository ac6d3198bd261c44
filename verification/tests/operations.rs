use sea_amm::address::{derive_pool_address, derive_share_token_address};
use sea_amm::handlers::{
    add_liquidity_at, check_identities, find_side, remove_liquidity_at, swap_at,
};
use sea_amm::instructions::create_pool_at;
use sea_amm::{
    add_liquidity_handler, remove_liquidity_handler, swap_handler, AmmError, Identity, LoadedPool,
    Pool, Reserves, Side,
};

fn asset(tag: u8) -> Identity {
    let mut bytes = [0u8; 32];
    bytes[0] = tag;
    bytes[31] = 7;
    Identity::new(bytes)
}

struct Fixture {
    pool: LoadedPool,
    mint_a: Identity,
    mint_b: Identity,
    share: Identity,
}

fn fixture() -> Fixture {
    let mint_a = asset(1);
    let mint_b = asset(2);
    let (key, bump) = derive_pool_address(&mint_a, &mint_b).unwrap();
    let (share, _) = derive_share_token_address(&mint_a, &mint_b).unwrap();
    let pool = LoadedPool {
        key,
        bump,
        authority: asset(9),
        token_mint_a: mint_a,
        token_mint_b: mint_b,
        token_vault_a: asset(3),
        token_vault_b: asset(4),
        lp_token_mint: share,
    };
    Fixture { pool, mint_a, mint_b, share }
}

const FIRST_SHARES: u64 = 4_000_000_000_000;

#[test]
fn first_deposit_mints_the_square_of_the_product() {
    let f = fixture();
    let mut reserves = Reserves::new();
    let minted =
        add_liquidity_handler(&f.pool, &f.mint_a, &f.mint_b, &f.share, &mut reserves, 1000, 2000);
    assert_eq!(minted, Ok(FIRST_SHARES));
    assert_eq!(
        reserves,
        Reserves { vault_a: 1000, vault_b: 2000, total_shares: FIRST_SHARES }
    );
}

#[test]
fn matching_deposit_mints_half_the_supply_over_reserves_of_1000_and_2000() {
    // The reserves that the shares are measured against hold the deposit:
    // 1000 and 2000 once 500 and 1000 have arrived.
    let f = fixture();
    let mut reserves = Reserves { vault_a: 500, vault_b: 1000, total_shares: FIRST_SHARES };
    let minted =
        add_liquidity_handler(&f.pool, &f.mint_a, &f.mint_b, &f.share, &mut reserves, 500, 1000);
    assert_eq!(minted, Ok(FIRST_SHARES / 2));
    assert_eq!(
        reserves,
        Reserves {
            vault_a: 1000,
            vault_b: 2000,
            total_shares: FIRST_SHARES + FIRST_SHARES / 2
        }
    );
}

#[test]
fn matching_deposit_after_the_first_counts_itself_in_the_reserves() {
    let f = fixture();
    let mut reserves = Reserves::new();
    add_liquidity_handler(&f.pool, &f.mint_a, &f.mint_b, &f.share, &mut reserves, 1000, 2000)
        .unwrap();
    let minted =
        add_liquidity_handler(&f.pool, &f.mint_a, &f.mint_b, &f.share, &mut reserves, 500, 1000);
    // min(500 * S / 1500, 1000 * S / 3000), each term rounded down
    assert_eq!(minted, Ok(1_333_333_333_333));
    assert_eq!(
        reserves,
        Reserves {
            vault_a: 1500,
            vault_b: 3000,
            total_shares: FIRST_SHARES + 1_333_333_333_333
        }
    );
}

#[test]
fn swap_of_100_a_pays_181_b() {
    let f = fixture();
    let mut reserves = Reserves { vault_a: 1000, vault_b: 2000, total_shares: FIRST_SHARES };
    let paid = swap_handler(&f.pool, &f.mint_a, 100, &f.mint_a, &f.mint_b, &mut reserves);
    assert_eq!(paid, Ok(181));
    assert_eq!(
        reserves,
        Reserves { vault_a: 1100, vault_b: 1819, total_shares: FIRST_SHARES }
    );
}

#[test]
fn swap_of_100_b_pays_47_a() {
    let f = fixture();
    let mut reserves = Reserves { vault_a: 1000, vault_b: 2000, total_shares: FIRST_SHARES };
    let paid = swap_handler(&f.pool, &f.mint_b, 100, &f.mint_a, &f.mint_b, &mut reserves);
    // 1000 * 100 / 2100 = 47.6
    assert_eq!(paid, Ok(47));
    assert_eq!(
        reserves,
        Reserves { vault_a: 953, vault_b: 2100, total_shares: FIRST_SHARES }
    );
}

#[test]
fn deposit_of_zero_a_is_an_invalid_amount() {
    let f = fixture();
    let before = Reserves { vault_a: 1000, vault_b: 2000, total_shares: FIRST_SHARES };
    let mut reserves = before;
    let minted =
        add_liquidity_handler(&f.pool, &f.mint_a, &f.mint_b, &f.share, &mut reserves, 0, 1000);
    assert_eq!(minted, Err(AmmError::InvalidAmount));
    assert_eq!(reserves, before);
}

#[test]
fn deposit_of_zero_b_is_an_invalid_amount() {
    let f = fixture();
    let mut reserves = Reserves::new();
    let minted =
        add_liquidity_handler(&f.pool, &f.mint_a, &f.mint_b, &f.share, &mut reserves, 1000, 0);
    assert_eq!(minted, Err(AmmError::InvalidAmount));
    assert_eq!(reserves, Reserves::new());
}

#[test]
fn deposit_off_the_ratio_is_refused_and_changes_nothing() {
    let f = fixture();
    let before = Reserves { vault_a: 1000, vault_b: 2000, total_shares: FIRST_SHARES };
    let mut reserves = before;
    let minted =
        add_liquidity_handler(&f.pool, &f.mint_a, &f.mint_b, &f.share, &mut reserves, 500, 1001);
    assert_eq!(minted, Err(AmmError::ReserveRatioMismatch));
    assert_eq!(reserves, before);
}

#[test]
fn round_trip_returns_the_first_deposit() {
    let f = fixture();
    let mut reserves = Reserves::new();
    let shares =
        add_liquidity_handler(&f.pool, &f.mint_a, &f.mint_b, &f.share, &mut reserves, 1000, 2000)
            .unwrap();
    let paid =
        remove_liquidity_handler(&f.pool, &f.mint_a, &f.mint_b, &f.share, &mut reserves, shares);
    assert_eq!(paid, Ok((1000, 2000)));
    assert_eq!(reserves, Reserves::new());
}

#[test]
fn withdrawal_pays_the_rounded_down_part_of_each_vault() {
    let f = fixture();
    let mut reserves = Reserves { vault_a: 1000, vault_b: 2001, total_shares: 3 };
    let paid = remove_liquidity_handler(&f.pool, &f.mint_a, &f.mint_b, &f.share, &mut reserves, 1);
    assert_eq!(paid, Ok((333, 667)));
    assert_eq!(reserves, Reserves { vault_a: 667, vault_b: 1334, total_shares: 2 });
}

#[test]
fn pool_at_another_address_is_refused() {
    let f = fixture();
    let mut pool = f.pool;
    pool.key = asset(5);
    let before = Reserves { vault_a: 1000, vault_b: 2000, total_shares: FIRST_SHARES };
    let mut reserves = before;
    assert_eq!(
        add_liquidity_handler(&pool, &f.mint_a, &f.mint_b, &f.share, &mut reserves, 500, 1000),
        Err(AmmError::InvalidPoolIdentity)
    );
    assert_eq!(
        remove_liquidity_handler(&pool, &f.mint_a, &f.mint_b, &f.share, &mut reserves, 10),
        Err(AmmError::InvalidPoolIdentity)
    );
    assert_eq!(
        swap_handler(&pool, &f.mint_a, 100, &f.mint_a, &f.mint_b, &mut reserves),
        Err(AmmError::InvalidPoolIdentity)
    );
    assert_eq!(reserves, before);
}

#[test]
fn pool_of_the_swapped_pair_is_refused() {
    let f = fixture();
    let mut reserves = Reserves::new();
    assert_eq!(
        add_liquidity_handler(&f.pool, &f.mint_b, &f.mint_a, &f.share, &mut reserves, 500, 1000),
        Err(AmmError::InvalidPoolIdentity)
    );
}

#[test]
fn foreign_share_token_is_refused() {
    let f = fixture();
    let before = Reserves { vault_a: 1000, vault_b: 2000, total_shares: FIRST_SHARES };
    let mut reserves = before;
    let other = asset(6);
    assert_eq!(
        add_liquidity_handler(&f.pool, &f.mint_a, &f.mint_b, &other, &mut reserves, 500, 1000),
        Err(AmmError::InvalidShareTokenIdentity)
    );
    assert_eq!(
        remove_liquidity_handler(&f.pool, &f.mint_a, &f.mint_b, &other, &mut reserves, 10),
        Err(AmmError::InvalidShareTokenIdentity)
    );
    assert_eq!(reserves, before);
}

#[test]
fn swap_of_a_foreign_asset_is_unsupported() {
    let f = fixture();
    let before = Reserves { vault_a: 1000, vault_b: 2000, total_shares: FIRST_SHARES };
    let mut reserves = before;
    let paid = swap_handler(&f.pool, &asset(8), 100, &f.mint_a, &f.mint_b, &mut reserves);
    assert_eq!(paid, Err(AmmError::UnsupportedAsset));
    assert_eq!(reserves, before);
}

#[test]
fn swap_of_nothing_is_an_invalid_amount() {
    let f = fixture();
    let before = Reserves { vault_a: 1000, vault_b: 2000, total_shares: FIRST_SHARES };
    let mut reserves = before;
    let paid = swap_handler(&f.pool, &f.mint_a, 0, &f.mint_a, &f.mint_b, &mut reserves);
    assert_eq!(paid, Err(AmmError::InvalidAmount));
    assert_eq!(reserves, before);
}

#[test]
fn identity_faults_come_before_amount_faults() {
    let f = fixture();
    let mut pool = f.pool;
    pool.key = asset(5);
    let mut reserves = Reserves::new();
    assert_eq!(
        add_liquidity_handler(&pool, &f.mint_a, &f.mint_b, &f.share, &mut reserves, 0, 0),
        Err(AmmError::InvalidPoolIdentity)
    );
    assert_eq!(
        swap_handler(&pool, &asset(8), 0, &f.mint_a, &f.mint_b, &mut reserves),
        Err(AmmError::InvalidPoolIdentity)
    );
    assert_eq!(
        swap_handler(&f.pool, &asset(8), 0, &f.mint_a, &f.mint_b, &mut reserves),
        Err(AmmError::UnsupportedAsset)
    );
}

#[test]
fn missing_derivation_refuses_every_pool() {
    let f = fixture();
    let found = Some((f.pool.key, f.pool.bump));
    let share_found = Some((f.share, 250));
    let before = Reserves { vault_a: 1000, vault_b: 2000, total_shares: FIRST_SHARES };
    let mut reserves = before;
    assert_eq!(
        add_liquidity_at(&None, &share_found, &f.pool, &f.share, &mut reserves, 500, 1000),
        Err(AmmError::InvalidPoolIdentity)
    );
    assert_eq!(
        add_liquidity_at(&found, &None, &f.pool, &f.share, &mut reserves, 500, 1000),
        Err(AmmError::InvalidShareTokenIdentity)
    );
    assert_eq!(
        add_liquidity_at(&None, &None, &f.pool, &f.share, &mut reserves, 500, 1000),
        Err(AmmError::InvalidPoolIdentity)
    );
    assert_eq!(
        remove_liquidity_at(&None, &share_found, &f.pool, &f.share, &mut reserves, 5),
        Err(AmmError::InvalidPoolIdentity)
    );
    assert_eq!(
        remove_liquidity_at(&found, &None, &f.pool, &f.share, &mut reserves, 5),
        Err(AmmError::InvalidShareTokenIdentity)
    );
    assert_eq!(
        swap_at(&None, &f.pool, &f.mint_a, 100, &f.mint_a, &f.mint_b, &mut reserves),
        Err(AmmError::InvalidPoolIdentity)
    );
    assert_eq!(reserves, before);
}

#[test]
fn operations_go_by_the_addresses_they_are_given() {
    let f = fixture();
    let mut pool = f.pool;
    pool.key = asset(5);
    let found = Some((asset(5), 1));
    let share_found = Some((asset(6), 2));
    let mut reserves = Reserves::new();
    assert_eq!(
        add_liquidity_at(&found, &share_found, &pool, &asset(6), &mut reserves, 1000, 2000),
        Ok(FIRST_SHARES)
    );
    assert_eq!(
        swap_at(&found, &pool, &asset(2), 100, &asset(1), &asset(2), &mut reserves),
        Ok(47)
    );
    assert_eq!(
        remove_liquidity_at(&found, &share_found, &pool, &asset(6), &mut reserves, FIRST_SHARES),
        Ok((953, 2100))
    );
    assert_eq!(reserves, Reserves::new());
}

#[test]
fn identities_are_checked_pool_first() {
    let checked = check_identities(&Some((asset(1), 0)), &asset(1), &Some((asset(2), 0)), &asset(2));
    assert_eq!(checked, Ok(()));
    let checked = check_identities(&Some((asset(1), 0)), &asset(3), &Some((asset(2), 0)), &asset(3));
    assert_eq!(checked, Err(AmmError::InvalidPoolIdentity));
    let checked = check_identities(&Some((asset(1), 0)), &asset(1), &Some((asset(2), 0)), &asset(3));
    assert_eq!(checked, Err(AmmError::InvalidShareTokenIdentity));
}

#[test]
fn side_of_an_asset_is_found_first_asset_first() {
    assert_eq!(find_side(&asset(1), &asset(1), &asset(2)), Some(Side::A));
    assert_eq!(find_side(&asset(2), &asset(1), &asset(2)), Some(Side::B));
    assert_eq!(find_side(&asset(3), &asset(1), &asset(2)), None);
    assert_eq!(find_side(&asset(1), &asset(1), &asset(1)), Some(Side::A));
}

#[test]
fn pool_without_an_address_is_not_created() {
    let some = |tag: u8| Some((asset(tag), tag));
    let (who, a, b) = (asset(9), asset(1), asset(2));
    assert_eq!(
        create_pool_at(&None, &some(3), &some(4), &some(5), &who, &a, &b),
        Err(AmmError::InvalidPoolIdentity)
    );
    assert_eq!(
        create_pool_at(&some(6), &None, &some(4), &some(5), &who, &a, &b),
        Err(AmmError::InvalidPoolIdentity)
    );
    assert_eq!(
        create_pool_at(&some(6), &some(3), &None, &some(5), &who, &a, &b),
        Err(AmmError::InvalidPoolIdentity)
    );
    assert_eq!(
        create_pool_at(&some(6), &some(3), &some(4), &None, &who, &a, &b),
        Err(AmmError::InvalidShareTokenIdentity)
    );
    assert_eq!(
        create_pool_at(&None, &some(3), &some(4), &None, &who, &a, &b),
        Err(AmmError::InvalidPoolIdentity)
    );
}

#[test]
fn pool_is_created_from_the_addresses_it_is_given() {
    let some = |tag: u8| Some((asset(tag), tag));
    let created =
        create_pool_at(&some(6), &some(3), &some(4), &some(5), &asset(9), &asset(1), &asset(2));
    assert_eq!(
        created,
        Ok((
            asset(6),
            Pool {
                bump: 6,
                authority: asset(9),
                token_mint_a: asset(1),
                token_mint_b: asset(2),
                token_vault_a: asset(3),
                token_vault_b: asset(4),
                lp_token_mint: asset(5),
            }
        ))
    );
}
