//! The entry points of the program: each loads the record of the pool,
//! runs one operation and stores the record again.

use crate::address::{
    derive_pool_address, derive_share_token_address, derive_vault_a_address,
    derive_vault_b_address, pool_address, share_token_address, vault_a_address, vault_b_address,
};
use crate::error::AmmError;
use crate::handlers::{
    add_liquidity_handler, add_liquidity_outcome, create_pool_handler, remove_liquidity_handler,
    remove_liquidity_outcome, swap_handler, swap_outcome,
};
use crate::identity::Identity;
use crate::pool::{Empty, Pool};
use crate::reserves::{settles, Reserves};
use vstd::prelude::*;

verus! {

/// Why no pool can be created for an asset pair, where none can: one of its
/// four addresses has no derivation.
pub open spec fn creation_fault(
    pool_found: Option<(Seq<u8>, u8)>,
    vault_a_found: Option<(Seq<u8>, u8)>,
    vault_b_found: Option<(Seq<u8>, u8)>,
    share_found: Option<(Seq<u8>, u8)>,
) -> Option<AmmError> {
    if pool_found is None || vault_a_found is None || vault_b_found is None {
        Some(AmmError::InvalidPoolIdentity)
    } else if share_found is None {
        Some(AmmError::InvalidShareTokenIdentity)
    } else {
        None
    }
}

/// The pool created by `authority` for the pair `(token_mint_a,
/// token_mint_b)` from the four derived addresses, with the address at
/// which its record is stored.
pub open spec fn create_pool_outcome(
    pool_found: Option<(Identity, u8)>,
    vault_a_found: Option<(Identity, u8)>,
    vault_b_found: Option<(Identity, u8)>,
    share_found: Option<(Identity, u8)>,
    authority: Identity,
    token_mint_a: Identity,
    token_mint_b: Identity,
) -> Result<(Identity, Pool), AmmError> {
    match (pool_found, vault_a_found, vault_b_found, share_found) {
        (Some((key, bump)), Some((vault_a, _)), Some((vault_b, _)), Some((share, _))) => Ok(
            (
                key,
                Pool {
                    bump,
                    authority,
                    token_mint_a,
                    token_mint_b,
                    token_vault_a: vault_a,
                    token_vault_b: vault_b,
                    lp_token_mint: share,
                },
            ),
        ),
        (Some(_), Some(_), Some(_), None) => Err(AmmError::InvalidShareTokenIdentity),
        _ => Err(AmmError::InvalidPoolIdentity),
    }
}

/// Creates the record of a pool from the four addresses that were derived
/// for its asset pair: `create_pool` once the derivations are made. No
/// balance moves.
pub fn create_pool_at(
    pool_found: &Option<(Identity, u8)>,
    vault_a_found: &Option<(Identity, u8)>,
    vault_b_found: &Option<(Identity, u8)>,
    share_found: &Option<(Identity, u8)>,
    authority: &Identity,
    token_mint_a: &Identity,
    token_mint_b: &Identity,
) -> (created: Result<(Identity, Pool), AmmError>)
    ensures
        created == create_pool_outcome(
            *pool_found,
            *vault_a_found,
            *vault_b_found,
            *share_found,
            *authority,
            *token_mint_a,
            *token_mint_b,
        ),
{
    let (key, bump) = match pool_found {
        Some((key, bump)) => (*key, *bump),
        None => {
            return Err(AmmError::InvalidPoolIdentity);
        },
    };
    let vault_a = match vault_a_found {
        Some((vault_a, _)) => *vault_a,
        None => {
            return Err(AmmError::InvalidPoolIdentity);
        },
    };
    let vault_b = match vault_b_found {
        Some((vault_b, _)) => *vault_b,
        None => {
            return Err(AmmError::InvalidPoolIdentity);
        },
    };
    let share = match share_found {
        Some((share, _)) => *share,
        None => {
            return Err(AmmError::InvalidShareTokenIdentity);
        },
    };
    let mut account = Pool::blank();
    let blank = Pool::load(&key, &account);
    let loaded = create_pool_handler(
        authority,
        Empty { account: blank, bump: Some(bump) },
        token_mint_a,
        token_mint_b,
        Empty { account: vault_a, bump: None },
        Empty { account: vault_b, bump: None },
        Empty { account: share, bump: None },
    );
    Pool::store(&loaded, &mut account);
    Ok((key, account))
}

/// Creates the pool of `authority` for the ordered pair `(token_mint_a,
/// token_mint_b)`: derives its address, its two vaults and its share token
/// and binds them in a record. No balance moves.
pub fn create_pool(authority: &Identity, token_mint_a: &Identity, token_mint_b: &Identity) -> (created:
    Result<(Identity, Pool), AmmError>)
    ensures
        match creation_fault(
            pool_address(token_mint_a@, token_mint_b@),
            vault_a_address(token_mint_a@),
            vault_b_address(token_mint_b@),
            share_token_address(token_mint_a@, token_mint_b@),
        ) {
            Some(reason) => created == Err::<(Identity, Pool), AmmError>(reason),
            None => created matches Ok((key, pool)) && pool.at(key).is_canonical()
                && pool.authority == *authority && pool.token_mint_a == *token_mint_a
                && pool.token_mint_b == *token_mint_b,
        },
{
    let pool_found = derive_pool_address(token_mint_a, token_mint_b);
    let vault_a_found = derive_vault_a_address(token_mint_a);
    let vault_b_found = derive_vault_b_address(token_mint_b);
    let share_found = derive_share_token_address(token_mint_a, token_mint_b);
    create_pool_at(
        &pool_found,
        &vault_a_found,
        &vault_b_found,
        &share_found,
        authority,
        token_mint_a,
        token_mint_b,
    )
}

/// Deposits into the pool whose record `pool` is stored at `pool_key`. The
/// record stays as it is.
pub fn add_liquidity(
    pool_key: &Identity,
    pool: &mut Pool,
    token_mint_a: &Identity,
    token_mint_b: &Identity,
    lp_token_mint: &Identity,
    reserves: &mut Reserves,
    token_amount_a: u64,
    token_amount_b: u64,
) -> (minted: Result<u64, AmmError>)
    ensures
        *final(pool) == *old(pool),
        settles(
            add_liquidity_outcome(
                pool_address(token_mint_a@, token_mint_b@),
                pool_key@,
                share_token_address(token_mint_a@, token_mint_b@),
                lp_token_mint@,
                *old(reserves),
                token_amount_a,
                token_amount_b,
            ),
            *old(reserves),
            *final(reserves),
            minted,
        ),
{
    let loaded = Pool::load(pool_key, pool);
    let minted = add_liquidity_handler(
        &loaded,
        token_mint_a,
        token_mint_b,
        lp_token_mint,
        reserves,
        token_amount_a,
        token_amount_b,
    );
    Pool::store(&loaded, pool);
    minted
}

/// Redeems shares of the pool whose record `pool` is stored at `pool_key`.
/// The record stays as it is.
pub fn remove_liquidity(
    pool_key: &Identity,
    pool: &mut Pool,
    token_mint_a: &Identity,
    token_mint_b: &Identity,
    lp_token_mint: &Identity,
    reserves: &mut Reserves,
    shares_to_burn: u64,
) -> (paid: Result<(u64, u64), AmmError>)
    ensures
        *final(pool) == *old(pool),
        settles(
            remove_liquidity_outcome(
                pool_address(token_mint_a@, token_mint_b@),
                pool_key@,
                share_token_address(token_mint_a@, token_mint_b@),
                lp_token_mint@,
                *old(reserves),
                shares_to_burn,
            ),
            *old(reserves),
            *final(reserves),
            paid,
        ),
{
    let loaded = Pool::load(pool_key, pool);
    let paid = remove_liquidity_handler(
        &loaded,
        token_mint_a,
        token_mint_b,
        lp_token_mint,
        reserves,
        shares_to_burn,
    );
    Pool::store(&loaded, pool);
    paid
}

/// Swaps against the pool whose record `pool` is stored at `pool_key`. The
/// record stays as it is.
pub fn swap(
    pool_key: &Identity,
    pool: &mut Pool,
    token_in_mint: &Identity,
    token_in_amount: u64,
    token_mint_a: &Identity,
    token_mint_b: &Identity,
    reserves: &mut Reserves,
) -> (paid: Result<u64, AmmError>)
    ensures
        *final(pool) == *old(pool),
        settles(
            swap_outcome(
                pool_address(token_mint_a@, token_mint_b@),
                pool_key@,
                token_in_mint@,
                token_mint_a@,
                token_mint_b@,
                *old(reserves),
                token_in_amount,
            ),
            *old(reserves),
            *final(reserves),
            paid,
        ),
{
    let loaded = Pool::load(pool_key, pool);
    let paid = swap_handler(
        &loaded,
        token_in_mint,
        token_in_amount,
        token_mint_a,
        token_mint_b,
        reserves,
    );
    Pool::store(&loaded, pool);
    paid
}

} // verus!
