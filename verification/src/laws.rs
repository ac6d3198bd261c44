//! What holds of every deposit, withdrawal and swap.

use crate::address::derives;
use crate::curve::{
    lemma_mul_div_bounded, lemma_mul_div_is_floor, lemma_mul_div_proper, lemma_mul_div_whole,
    swap_output,
};
use crate::error::AmmError;
use crate::handlers::{add_liquidity_outcome, remove_liquidity_outcome, side_of, swap_outcome};
use crate::identity::identity_is_its_bytes;
use crate::ledger::{deposit_effects, swap_effects, withdrawal_effects, Effect};
use crate::pool::LoadedPool;
use crate::reserves::{settles, Reserves, Side};
use vstd::arithmetic::mul::{
    lemma_mul_is_commutative, lemma_mul_is_distributive_add, lemma_mul_is_distributive_sub,
};
use vstd::prelude::*;

verus! {

/// A deposit into a pool that holds reserves is refused with
/// `ReserveRatioMismatch` where it is not in the ratio of the reserves, and
/// leaves the balances as they were. This holds of every deposit of two
/// positive amounts, which the vaults have room for, into the derived pool
/// with its derived share token.
pub proof fn deposit_off_ratio_is_refused(
    pool_found: Option<(Seq<u8>, u8)>,
    pool_key: Seq<u8>,
    share_found: Option<(Seq<u8>, u8)>,
    share_key: Seq<u8>,
    reserves: Reserves,
    amount_a: u64,
    amount_b: u64,
    after: Reserves,
    returned: Result<u64, AmmError>,
)
    requires
        derives(pool_found, pool_key),
        derives(share_found, share_key),
        amount_a > 0,
        amount_b > 0,
        reserves.vault_a + amount_a <= u64::MAX,
        reserves.vault_b + amount_b <= u64::MAX,
        reserves.vault_a > 0 || reserves.vault_b > 0,
        reserves.vault_a * amount_b != reserves.vault_b * amount_a,
        settles(
            add_liquidity_outcome(
                pool_found,
                pool_key,
                share_found,
                share_key,
                reserves,
                amount_a,
                amount_b,
            ),
            reserves,
            after,
            returned,
        ),
    ensures
        returned == Err::<u64, AmmError>(AmmError::ReserveRatioMismatch),
        after == reserves,
{
}

/// A deposit that is accepted keeps the ratio of the reserves exactly.
pub proof fn deposit_keeps_ratio(reserves: Reserves, amount_a: u64, amount_b: u64)
    requires
        reserves.vault_a > 0 || reserves.vault_b > 0,
        reserves.deposit_outcome(amount_a, amount_b) is Ok,
    ensures
        ({
            let after = reserves.deposit_outcome(amount_a, amount_b)->Ok_0.0;
            after.vault_a * reserves.vault_b == after.vault_b * reserves.vault_a
        }),
{
    let va = reserves.vault_a as int;
    let vb = reserves.vault_b as int;
    lemma_mul_is_distributive_add(vb, va, amount_a as int);
    lemma_mul_is_distributive_add(va, vb, amount_b as int);
    lemma_mul_is_commutative(va + amount_a, vb);
    lemma_mul_is_commutative(vb + amount_b, va);
    lemma_mul_is_commutative(va, vb);
    lemma_mul_is_commutative(vb, amount_a as int);
}

/// A deposit that is accepted leaves both vaults filled and shares
/// outstanding.
pub proof fn deposit_funds_the_pool(reserves: Reserves, amount_a: u64, amount_b: u64)
    requires
        reserves.deposit_outcome(amount_a, amount_b) is Ok,
    ensures
        reserves.deposit_outcome(amount_a, amount_b)->Ok_0.0.is_funded(),
{
}

/// Redeeming no more shares than are outstanding pays out of each vault
/// the part that the shares are of the supply, rounded down, and never more
/// than the vault holds.
pub proof fn withdrawal_is_proportional(reserves: Reserves, shares: u64)
    requires
        reserves.total_shares > 0,
        shares <= reserves.total_shares,
    ensures
        reserves.withdraw_outcome(shares) is Ok,
        ({
            let (after, (amount_a, amount_b)) = reserves.withdraw_outcome(shares)->Ok_0;
            &&& amount_a == (reserves.vault_a * shares) / (reserves.total_shares as int)
            &&& amount_b == (reserves.vault_b * shares) / (reserves.total_shares as int)
            &&& amount_a * reserves.total_shares <= reserves.vault_a * shares
            &&& reserves.vault_a * shares < (amount_a + 1) * reserves.total_shares
            &&& amount_b * reserves.total_shares <= reserves.vault_b * shares
            &&& reserves.vault_b * shares < (amount_b + 1) * reserves.total_shares
            &&& after.vault_a == reserves.vault_a - amount_a
            &&& after.vault_b == reserves.vault_b - amount_b
            &&& after.total_shares == reserves.total_shares - shares
        }),
{
    let total = reserves.total_shares as int;
    lemma_mul_div_bounded(reserves.vault_a as int, shares as int, total);
    lemma_mul_div_bounded(reserves.vault_b as int, shares as int, total);
    lemma_mul_div_is_floor(reserves.vault_a as int, shares as int, total);
    lemma_mul_div_is_floor(reserves.vault_b as int, shares as int, total);
}

/// Redeeming shares keeps the backing of the pool: either shares stay
/// outstanding and both vaults stay filled, or the last share is gone and
/// both vaults are empty.
pub proof fn withdrawal_keeps_backing(reserves: Reserves, shares: u64)
    requires
        reserves.is_backed(),
        reserves.withdraw_outcome(shares) is Ok,
    ensures
        reserves.withdraw_outcome(shares)->Ok_0.0.is_backed(),
{
    let total = reserves.total_shares as int;
    if shares == reserves.total_shares {
        lemma_mul_div_whole(reserves.vault_a as int, total);
        lemma_mul_div_whole(reserves.vault_b as int, total);
    } else {
        lemma_mul_div_proper(reserves.vault_a as int, shares as int, total);
        lemma_mul_div_proper(reserves.vault_b as int, shares as int, total);
        lemma_mul_div_bounded(reserves.vault_a as int, shares as int, total);
        lemma_mul_div_bounded(reserves.vault_b as int, shares as int, total);
    }
}

/// A swap of a positive amount that the vault has room for pays out the
/// price of the curve, rounded down, and never more than the other vault
/// holds.
pub proof fn swap_pays_the_curve_price(reserves: Reserves, side_in: Side, amount_in: u64)
    requires
        amount_in > 0,
        reserves.vault(side_in) + amount_in <= u64::MAX,
    ensures
        reserves.swap_outcome(side_in, amount_in) is Ok,
        ({
            let (after, amount_out) = reserves.swap_outcome(side_in, amount_in)->Ok_0;
            let side_out = side_in.other();
            let vault_in = reserves.vault(side_in);
            let vault_out = reserves.vault(side_out);
            &&& amount_out == (vault_out * amount_in) / (vault_in + amount_in)
            &&& amount_out * (vault_in + amount_in) <= vault_out * amount_in
            &&& vault_out * amount_in < (amount_out + 1) * (vault_in + amount_in)
            &&& amount_out <= vault_out
            &&& after.vault(side_in) == vault_in + amount_in
            &&& after.vault(side_out) == vault_out - amount_out
            &&& after.total_shares == reserves.total_shares
        }),
{
    let vault_in = reserves.vault(side_in) as int;
    let vault_out = reserves.vault(side_in.other()) as int;
    lemma_mul_div_bounded(vault_out, amount_in as int, vault_in + amount_in);
    lemma_mul_div_is_floor(vault_out, amount_in as int, vault_in + amount_in);
}

/// A swap creates no value: the product of the two reserves after it is
/// no smaller than before.
pub proof fn swap_never_lowers_the_product(reserves: Reserves, side_in: Side, amount_in: u64)
    requires
        reserves.swap_outcome(side_in, amount_in) is Ok,
    ensures
        ({
            let after = reserves.swap_outcome(side_in, amount_in)->Ok_0.0;
            after.vault_a * after.vault_b >= reserves.vault_a * reserves.vault_b
        }),
{
    let vault_in = reserves.vault(side_in) as int;
    let vault_out = reserves.vault(side_in.other()) as int;
    let amount = amount_in as int;
    let paid = swap_output(vault_out, vault_in, amount);
    lemma_mul_div_bounded(vault_out, amount, vault_in + amount);
    lemma_mul_div_is_floor(vault_out, amount, vault_in + amount);
    // paid * (vault_in + amount) <= vault_out * amount, so
    // (vault_in + amount) * (vault_out - paid) >= vault_in * vault_out.
    lemma_mul_is_distributive_sub(vault_in + amount, vault_out, paid);
    lemma_mul_is_distributive_add(vault_out, vault_in, amount);
    lemma_mul_is_commutative(vault_in + amount, vault_out);
    lemma_mul_is_commutative(vault_in + amount, paid);
    lemma_mul_is_commutative(vault_in, vault_out);
    lemma_mul_is_commutative(vault_in + amount, vault_out - paid);
}

/// A swap against a funded pool leaves it funded: no vault is drained.
pub proof fn swap_keeps_funding(reserves: Reserves, side_in: Side, amount_in: u64)
    requires
        reserves.is_funded(),
        reserves.swap_outcome(side_in, amount_in) is Ok,
    ensures
        reserves.swap_outcome(side_in, amount_in)->Ok_0.0.is_funded(),
{
    let vault_in = reserves.vault(side_in) as int;
    let vault_out = reserves.vault(side_in.other()) as int;
    lemma_mul_div_proper(vault_out, amount_in as int, vault_in + amount_in);
}

/// Round trip: whoever makes the first deposit into an empty pool and
/// redeems at once all the shares it earned gets back exactly what was
/// deposited, and the pool is empty again.
pub proof fn first_deposit_round_trip(amount_a: u64, amount_b: u64)
    requires
        Reserves::empty().deposit_outcome(amount_a, amount_b) is Ok,
    ensures
        ({
            let (funded, shares) = Reserves::empty().deposit_outcome(amount_a, amount_b)->Ok_0;
            funded.withdraw_outcome(shares) == Ok::<(Reserves, (u64, u64)), AmmError>(
                (Reserves::empty(), (amount_a, amount_b)),
            )
        }),
{
    let (funded, shares) = Reserves::empty().deposit_outcome(amount_a, amount_b)->Ok_0;
    lemma_mul_div_whole(amount_a as int, shares as int);
    lemma_mul_div_whole(amount_b as int, shares as int);
}

/// Three movements made in order are made one after the other.
proof fn lemma_three_effects(reserves: Reserves, first: Effect, second: Effect, third: Effect)
    ensures
        reserves.after_effects(seq![first, second, third]) == match reserves.after_effect(first) {
            Ok(one) => match one.after_effect(second) {
                Ok(two) => two.after_effect(third),
                Err(reason) => Err(reason),
            },
            Err(reason) => Err(reason),
        },
{
    reveal_with_fuel(Reserves::after_effects, 4);
    assert(seq![first, second, third].drop_first() =~= seq![second, third]);
    assert(seq![second, third].drop_first() =~= seq![third]);
    assert(seq![third].drop_first() =~= Seq::<Effect>::empty());
}

/// Two movements made in order are made one after the other.
proof fn lemma_two_effects(reserves: Reserves, first: Effect, second: Effect)
    ensures
        reserves.after_effects(seq![first, second]) == match reserves.after_effect(first) {
            Ok(one) => one.after_effect(second),
            Err(reason) => Err(reason),
        },
{
    reveal_with_fuel(Reserves::after_effects, 3);
    assert(seq![first, second].drop_first() =~= seq![second]);
    assert(seq![second].drop_first() =~= Seq::<Effect>::empty());
}

/// The ledger makes every movement of an accepted deposit, and the
/// movements leave the reserves that the deposit leaves.
pub proof fn deposit_is_its_effects(reserves: Reserves, amount_a: u64, amount_b: u64)
    requires
        reserves.deposit_outcome(amount_a, amount_b) is Ok,
    ensures
        ({
            let (after, shares) = reserves.deposit_outcome(amount_a, amount_b)->Ok_0;
            reserves.after_effects(deposit_effects(amount_a, amount_b, shares)) == Ok::<
                Reserves,
                AmmError,
            >(after)
        }),
{
    let (after, shares) = reserves.deposit_outcome(amount_a, amount_b)->Ok_0;
    lemma_three_effects(
        reserves,
        Effect::TransferIn { side: Side::A, amount: amount_a },
        Effect::TransferIn { side: Side::B, amount: amount_b },
        Effect::Mint { shares },
    );
}

/// The ledger makes every movement of an accepted withdrawal, the burn
/// first, and the movements leave the reserves that the withdrawal leaves.
pub proof fn withdrawal_is_its_effects(reserves: Reserves, shares: u64)
    requires
        reserves.withdraw_outcome(shares) is Ok,
    ensures
        ({
            let (after, (amount_a, amount_b)) = reserves.withdraw_outcome(shares)->Ok_0;
            reserves.after_effects(withdrawal_effects(shares, amount_a, amount_b)) == Ok::<
                Reserves,
                AmmError,
            >(after)
        }),
{
    let (after, (amount_a, amount_b)) = reserves.withdraw_outcome(shares)->Ok_0;
    let total = reserves.total_shares as int;
    lemma_mul_div_bounded(reserves.vault_a as int, shares as int, total);
    lemma_mul_div_bounded(reserves.vault_b as int, shares as int, total);
    lemma_three_effects(
        reserves,
        Effect::Burn { shares },
        Effect::TransferOut { side: Side::A, amount: amount_a },
        Effect::TransferOut { side: Side::B, amount: amount_b },
    );
}

/// The ledger makes both movements of an accepted swap, and they leave the
/// reserves that the swap leaves.
pub proof fn swap_is_its_effects(reserves: Reserves, side_in: Side, amount_in: u64)
    requires
        reserves.swap_outcome(side_in, amount_in) is Ok,
    ensures
        ({
            let (after, amount_out) = reserves.swap_outcome(side_in, amount_in)->Ok_0;
            reserves.after_effects(swap_effects(side_in, amount_in, amount_out)) == Ok::<
                Reserves,
                AmmError,
            >(after)
        }),
{
    let (after, amount_out) = reserves.swap_outcome(side_in, amount_in)->Ok_0;
    let vault_in = reserves.vault(side_in) as int;
    let vault_out = reserves.vault(side_in.other()) as int;
    lemma_mul_div_bounded(vault_out, amount_in as int, vault_in + amount_in);
    lemma_two_effects(
        reserves,
        Effect::TransferIn { side: side_in, amount: amount_in },
        Effect::TransferOut { side: side_in.other(), amount: amount_out },
    );
}

/// Where the presented pool and share token are the derived ones, an
/// operation is decided by the reserves and the amounts alone.
pub proof fn valid_identities_leave_it_to_the_reserves(
    pool_found: Option<(Seq<u8>, u8)>,
    pool_key: Seq<u8>,
    share_found: Option<(Seq<u8>, u8)>,
    share_key: Seq<u8>,
    reserves: Reserves,
    amount_a: u64,
    amount_b: u64,
    shares: u64,
)
    requires
        derives(pool_found, pool_key),
        derives(share_found, share_key),
    ensures
        add_liquidity_outcome(
            pool_found,
            pool_key,
            share_found,
            share_key,
            reserves,
            amount_a,
            amount_b,
        ) == reserves.deposit_outcome(amount_a, amount_b),
        remove_liquidity_outcome(pool_found, pool_key, share_found, share_key, reserves, shares)
            == reserves.withdraw_outcome(shares),
{
}

/// A swap against the derived pool is decided by the side of the asset
/// paid in, the reserves and the amount alone.
pub proof fn valid_pool_leaves_the_swap_to_the_reserves(
    pool_found: Option<(Seq<u8>, u8)>,
    pool_key: Seq<u8>,
    asset_in: Seq<u8>,
    asset_a: Seq<u8>,
    asset_b: Seq<u8>,
    reserves: Reserves,
    amount_in: u64,
)
    requires
        derives(pool_found, pool_key),
        asset_in == asset_a || asset_in == asset_b,
    ensures
        side_of(asset_in, asset_a, asset_b) is Some,
        swap_outcome(pool_found, pool_key, asset_in, asset_a, asset_b, reserves, amount_in)
            == reserves.swap_outcome(side_of(asset_in, asset_a, asset_b)->0, amount_in),
{
}

/// The identities of a pool are a function of its asset pair: two pools
/// for the same ordered pair, each at its derived address with its derived
/// vaults and share token, are bound to the same identities.
pub proof fn canonical_pool_is_unique(one: LoadedPool, other: LoadedPool)
    requires
        one.is_canonical(),
        other.is_canonical(),
        one.token_mint_a == other.token_mint_a,
        one.token_mint_b == other.token_mint_b,
    ensures
        one.key == other.key,
        one.bump == other.bump,
        one.token_vault_a == other.token_vault_a,
        one.token_vault_b == other.token_vault_b,
        one.lp_token_mint == other.lp_token_mint,
{
    identity_is_its_bytes(one.key, other.key);
    identity_is_its_bytes(one.token_vault_a, other.token_vault_a);
    identity_is_its_bytes(one.token_vault_b, other.token_vault_b);
    identity_is_its_bytes(one.lp_token_mint, other.lp_token_mint);
}

} // verus!
