//! The operations on a pool, each checked against the identities that the
//! pool is bound to before any balance moves.

use crate::address::{
    address_view, derive_pool_address, derive_share_token_address, derives, is_derived,
    pool_address, share_token_address,
};
use crate::error::AmmError;
use crate::identity::Identity;
use crate::pool::{Empty, LoadedPool};
use crate::reserves::{settles, Reserves, Side};
use vstd::prelude::*;

verus! {

/// Why the presented pool and share token are refused, where they are:
/// each has to be the address derived for it.
pub open spec fn identity_fault(
    pool_found: Option<(Seq<u8>, u8)>,
    pool_key: Seq<u8>,
    share_found: Option<(Seq<u8>, u8)>,
    share_key: Seq<u8>,
) -> Option<AmmError> {
    if !derives(pool_found, pool_key) {
        Some(AmmError::InvalidPoolIdentity)
    } else if !derives(share_found, share_key) {
        Some(AmmError::InvalidShareTokenIdentity)
    } else {
        None
    }
}

/// The side of the pool that holds the asset `asset_in`, if either does.
pub open spec fn side_of(asset_in: Seq<u8>, asset_a: Seq<u8>, asset_b: Seq<u8>) -> Option<Side> {
    if asset_in == asset_a {
        Some(Side::A)
    } else if asset_in == asset_b {
        Some(Side::B)
    } else {
        None
    }
}

/// What a deposit does to a pool presented at `pool_key` with the share
/// token `share_key`, where `pool_found` and `share_found` are the addresses
/// derived for the asset pair.
pub open spec fn add_liquidity_outcome(
    pool_found: Option<(Seq<u8>, u8)>,
    pool_key: Seq<u8>,
    share_found: Option<(Seq<u8>, u8)>,
    share_key: Seq<u8>,
    reserves: Reserves,
    amount_a: u64,
    amount_b: u64,
) -> Result<(Reserves, u64), AmmError> {
    match identity_fault(pool_found, pool_key, share_found, share_key) {
        Some(reason) => Err(reason),
        None => reserves.deposit_outcome(amount_a, amount_b),
    }
}

/// What redeeming `shares` does to a pool presented at `pool_key` with the
/// share token `share_key`.
pub open spec fn remove_liquidity_outcome(
    pool_found: Option<(Seq<u8>, u8)>,
    pool_key: Seq<u8>,
    share_found: Option<(Seq<u8>, u8)>,
    share_key: Seq<u8>,
    reserves: Reserves,
    shares: u64,
) -> Result<(Reserves, (u64, u64)), AmmError> {
    match identity_fault(pool_found, pool_key, share_found, share_key) {
        Some(reason) => Err(reason),
        None => reserves.withdraw_outcome(shares),
    }
}

/// What a swap of `amount_in` of the asset `asset_in` does to a pool for
/// the pair `(asset_a, asset_b)` presented at `pool_key`.
pub open spec fn swap_outcome(
    pool_found: Option<(Seq<u8>, u8)>,
    pool_key: Seq<u8>,
    asset_in: Seq<u8>,
    asset_a: Seq<u8>,
    asset_b: Seq<u8>,
    reserves: Reserves,
    amount_in: u64,
) -> Result<(Reserves, u64), AmmError> {
    if !derives(pool_found, pool_key) {
        Err(AmmError::InvalidPoolIdentity)
    } else {
        match side_of(asset_in, asset_a, asset_b) {
            None => Err(AmmError::UnsupportedAsset),
            Some(side_in) => reserves.swap_outcome(side_in, amount_in),
        }
    }
}

/// Tests the presented pool and share token against the derived addresses.
pub fn check_identities(
    pool_found: &Option<(Identity, u8)>,
    pool_key: &Identity,
    share_found: &Option<(Identity, u8)>,
    share_key: &Identity,
) -> (checked: Result<(), AmmError>)
    ensures
        match identity_fault(
            address_view(*pool_found),
            pool_key@,
            address_view(*share_found),
            share_key@,
        ) {
            Some(reason) => checked == Err::<(), AmmError>(reason),
            None => checked is Ok,
        },
{
    if !is_derived(pool_found, pool_key) {
        Err(AmmError::InvalidPoolIdentity)
    } else if !is_derived(share_found, share_key) {
        Err(AmmError::InvalidShareTokenIdentity)
    } else {
        Ok(())
    }
}

/// Finds the side of the pool that holds `asset_in`.
pub fn find_side(asset_in: &Identity, asset_a: &Identity, asset_b: &Identity) -> (side: Option<
    Side,
>)
    ensures
        side == side_of(asset_in@, asset_a@, asset_b@),
{
    if asset_in.same_as(asset_a) {
        Some(Side::A)
    } else if asset_in.same_as(asset_b) {
        Some(Side::B)
    } else {
        None
    }
}

/// Deposits into a pool, given the addresses that were derived for its
/// asset pair: `add_liquidity_handler` once the derivation is made.
pub fn add_liquidity_at(
    pool_found: &Option<(Identity, u8)>,
    share_found: &Option<(Identity, u8)>,
    pool: &LoadedPool,
    lp_token_mint: &Identity,
    reserves: &mut Reserves,
    token_amount_a: u64,
    token_amount_b: u64,
) -> (minted: Result<u64, AmmError>)
    ensures
        settles(
            add_liquidity_outcome(
                address_view(*pool_found),
                pool.key@,
                address_view(*share_found),
                lp_token_mint@,
                *old(reserves),
                token_amount_a,
                token_amount_b,
            ),
            *old(reserves),
            *final(reserves),
            minted,
        ),
{
    match check_identities(pool_found, &pool.key, share_found, lp_token_mint) {
        Err(reason) => Err(reason),
        Ok(_) => reserves.deposit(token_amount_a, token_amount_b),
    }
}

/// Redeems shares of a pool, given the addresses that were derived for its
/// asset pair: `remove_liquidity_handler` once the derivation is made.
pub fn remove_liquidity_at(
    pool_found: &Option<(Identity, u8)>,
    share_found: &Option<(Identity, u8)>,
    pool: &LoadedPool,
    lp_token_mint: &Identity,
    reserves: &mut Reserves,
    shares_to_burn: u64,
) -> (paid: Result<(u64, u64), AmmError>)
    ensures
        settles(
            remove_liquidity_outcome(
                address_view(*pool_found),
                pool.key@,
                address_view(*share_found),
                lp_token_mint@,
                *old(reserves),
                shares_to_burn,
            ),
            *old(reserves),
            *final(reserves),
            paid,
        ),
{
    match check_identities(pool_found, &pool.key, share_found, lp_token_mint) {
        Err(reason) => Err(reason),
        Ok(_) => reserves.withdraw(shares_to_burn),
    }
}

/// Swaps against a pool, given the address that was derived for its asset
/// pair: `swap_handler` once the derivation is made.
pub fn swap_at(
    pool_found: &Option<(Identity, u8)>,
    pool: &LoadedPool,
    token_in_mint: &Identity,
    token_in_amount: u64,
    token_mint_a: &Identity,
    token_mint_b: &Identity,
    reserves: &mut Reserves,
) -> (paid: Result<u64, AmmError>)
    ensures
        settles(
            swap_outcome(
                address_view(*pool_found),
                pool.key@,
                token_in_mint@,
                token_mint_a@,
                token_mint_b@,
                *old(reserves),
                token_in_amount,
            ),
            *old(reserves),
            *final(reserves),
            paid,
        ),
{
    if !is_derived(pool_found, &pool.key) {
        return Err(AmmError::InvalidPoolIdentity);
    }
    match find_side(token_in_mint, token_mint_a, token_mint_b) {
        None => Err(AmmError::UnsupportedAsset),
        Some(side_in) => reserves.swap(side_in, token_in_amount),
    }
}

/// Deposits `token_amount_a` and `token_amount_b` into the pool and issues
/// shares for them. The pool and the share token have to be the ones
/// derived from the asset pair.
pub fn add_liquidity_handler(
    pool: &LoadedPool,
    token_mint_a: &Identity,
    token_mint_b: &Identity,
    lp_token_mint: &Identity,
    reserves: &mut Reserves,
    token_amount_a: u64,
    token_amount_b: u64,
) -> (minted: Result<u64, AmmError>)
    ensures
        settles(
            add_liquidity_outcome(
                pool_address(token_mint_a@, token_mint_b@),
                pool.key@,
                share_token_address(token_mint_a@, token_mint_b@),
                lp_token_mint@,
                *old(reserves),
                token_amount_a,
                token_amount_b,
            ),
            *old(reserves),
            *final(reserves),
            minted,
        ),
{
    let pool_found = derive_pool_address(token_mint_a, token_mint_b);
    let share_found = derive_share_token_address(token_mint_a, token_mint_b);
    add_liquidity_at(
        &pool_found,
        &share_found,
        pool,
        lp_token_mint,
        reserves,
        token_amount_a,
        token_amount_b,
    )
}

/// Retires `shares_to_burn` shares and pays out their part of both vaults.
/// The pool and the share token have to be the ones derived from the asset
/// pair. There is no redeeming a part of a holding: a caller presents its
/// whole balance of shares.
pub fn remove_liquidity_handler(
    pool: &LoadedPool,
    token_mint_a: &Identity,
    token_mint_b: &Identity,
    lp_token_mint: &Identity,
    reserves: &mut Reserves,
    shares_to_burn: u64,
) -> (paid: Result<(u64, u64), AmmError>)
    ensures
        settles(
            remove_liquidity_outcome(
                pool_address(token_mint_a@, token_mint_b@),
                pool.key@,
                share_token_address(token_mint_a@, token_mint_b@),
                lp_token_mint@,
                *old(reserves),
                shares_to_burn,
            ),
            *old(reserves),
            *final(reserves),
            paid,
        ),
{
    let pool_found = derive_pool_address(token_mint_a, token_mint_b);
    let share_found = derive_share_token_address(token_mint_a, token_mint_b);
    remove_liquidity_at(&pool_found, &share_found, pool, lp_token_mint, reserves, shares_to_burn)
}

/// Takes `token_in_amount` of the asset `token_in_mint` and pays out the
/// other asset of the pool at the price of the curve. The pool has to be
/// the one derived from the asset pair.
pub fn swap_handler(
    pool: &LoadedPool,
    token_in_mint: &Identity,
    token_in_amount: u64,
    token_mint_a: &Identity,
    token_mint_b: &Identity,
    reserves: &mut Reserves,
) -> (paid: Result<u64, AmmError>)
    ensures
        settles(
            swap_outcome(
                pool_address(token_mint_a@, token_mint_b@),
                pool.key@,
                token_in_mint@,
                token_mint_a@,
                token_mint_b@,
                *old(reserves),
                token_in_amount,
            ),
            *old(reserves),
            *final(reserves),
            paid,
        ),
{
    let pool_found = derive_pool_address(token_mint_a, token_mint_b);
    swap_at(
        &pool_found,
        pool,
        token_in_mint,
        token_in_amount,
        token_mint_a,
        token_mint_b,
        reserves,
    )
}

/// Fills in the record of a pool that is being created: the bump seed of
/// its address, its creator, the asset pair, the two vaults and the share
/// token.
pub fn create_pool_handler(
    authority: &Identity,
    pool: Empty<LoadedPool>,
    token_mint_a: &Identity,
    token_mint_b: &Identity,
    token_vault_a: Empty<Identity>,
    token_vault_b: Empty<Identity>,
    lp_token_mint: Empty<Identity>,
) -> (created: LoadedPool)
    requires
        pool.bump is Some,
    ensures
        created.key == pool.account.key,
        Some(created.bump) == pool.bump,
        created.authority == *authority,
        created.token_mint_a == *token_mint_a,
        created.token_mint_b == *token_mint_b,
        created.token_vault_a == token_vault_a.account,
        created.token_vault_b == token_vault_b.account,
        created.lp_token_mint == lp_token_mint.account,
{
    let bump: u8 = match pool.bump {
        Some(bump) => bump,
        None => 0,
    };
    LoadedPool {
        key: pool.account.key,
        bump,
        authority: *authority,
        token_mint_a: *token_mint_a,
        token_mint_b: *token_mint_b,
        token_vault_a: token_vault_a.account,
        token_vault_b: token_vault_b.account,
        lp_token_mint: lp_token_mint.account,
    }
}

} // verus!
