//! The balances a pool controls, and the three operations that change them.

use crate::curve::{
    first_deposit_shares, initial_shares, later_deposit_shares, proportional_shares, ratio_holds,
    ratio_matches, redeemed_amount, swap_amount_out, swap_output, withdrawal_amount,
};
use crate::error::AmmError;
use vstd::prelude::*;

verus! {

/// One of the two assets of a pool.
#[derive(Clone, Copy, Debug, PartialEq, Eq, Structural)]
pub enum Side {
    /// The first asset of the pair.
    A,
    /// The second asset of the pair.
    B,
}

impl Side {
    /// The other asset of the pair.
    pub open spec fn other(self) -> Side {
        match self {
            Side::A => Side::B,
            Side::B => Side::A,
        }
    }

    /// The other asset of the pair.
    pub fn opposite(&self) -> (side: Side)
        ensures
            side == self.other(),
    {
        match self {
            Side::A => Side::B,
            Side::B => Side::A,
        }
    }
}

/// The balances of the two vaults of a pool and the supply of its share
/// token.
#[derive(Clone, Copy, Debug, PartialEq, Eq, Structural)]
pub struct Reserves {
    /// Balance of the vault of the first asset.
    pub vault_a: u64,
    /// Balance of the vault of the second asset.
    pub vault_b: u64,
    /// Shares outstanding.
    pub total_shares: u64,
}

/// An operation has settled: it took effect as `outcome` says and returned
/// what `outcome` holds, or it was refused for the reason in `outcome` and
/// left the reserves as they were.
pub open spec fn settles<T>(
    outcome: Result<(Reserves, T), AmmError>,
    before: Reserves,
    after: Reserves,
    returned: Result<T, AmmError>,
) -> bool {
    match outcome {
        Ok((next, value)) => after == next && returned == Ok::<T, AmmError>(value),
        Err(reason) => after == before && returned == Err::<T, AmmError>(reason),
    }
}

impl Reserves {
    /// The reserves of a pool that has received nothing yet.
    pub open spec fn empty() -> Reserves {
        Reserves { vault_a: 0, vault_b: 0, total_shares: 0 }
    }

    /// Nothing in the vaults and no share outstanding.
    pub open spec fn is_empty(self) -> bool {
        self == Reserves::empty()
    }

    /// Both vaults hold something and shares are outstanding.
    pub open spec fn is_funded(self) -> bool {
        self.vault_a > 0 && self.vault_b > 0 && self.total_shares > 0
    }

    /// Shares are outstanding if and only if both vaults hold something, and
    /// no vault holds anything without the other.
    pub open spec fn is_backed(self) -> bool {
        self.is_empty() || self.is_funded()
    }

    /// The balance of the vault of `side`.
    pub open spec fn vault(self, side: Side) -> u64 {
        match side {
            Side::A => self.vault_a,
            Side::B => self.vault_b,
        }
    }

    /// The reserves with the balance of the vault of `side` set to
    /// `balance`.
    pub open spec fn with_vault(self, side: Side, balance: u64) -> Reserves {
        match side {
            Side::A => Reserves { vault_a: balance, ..self },
            Side::B => Reserves { vault_b: balance, ..self },
        }
    }

    /// The shares that a deposit of `(amount_a, amount_b)` earns: those of
    /// a first deposit where no share is outstanding, else the part of the
    /// supply that the deposit makes up of the reserves once it has arrived.
    pub open spec fn deposit_shares(self, amount_a: u64, amount_b: u64) -> int {
        if self.total_shares == 0 {
            initial_shares(amount_a as int, amount_b as int)
        } else {
            proportional_shares(
                amount_a as int,
                amount_b as int,
                self.total_shares as int,
                self.vault_a + amount_a,
                self.vault_b + amount_b,
            )
        }
    }

    /// What a deposit of `(amount_a, amount_b)` does: the reserves after it
    /// and the shares issued, or the reason why it is refused. Both amounts
    /// have to be positive and the vaults need room for them; where a vault
    /// holds something already, the deposit has to be in the ratio of the
    /// reserves, exactly; it has to earn a share at least, and the supply
    /// needs room for what it earns. The first of these that fails is the
    /// reason.
    pub open spec fn deposit_outcome(self, amount_a: u64, amount_b: u64) -> Result<
        (Reserves, u64),
        AmmError,
    > {
        let shares = self.deposit_shares(amount_a, amount_b);
        if amount_a == 0 || amount_b == 0 {
            Err(AmmError::InvalidAmount)
        } else if self.vault_a + amount_a > u64::MAX || self.vault_b + amount_b > u64::MAX {
            Err(AmmError::TransferFailed)
        } else if (self.vault_a > 0 || self.vault_b > 0) && !ratio_matches(
            self.vault_a as int,
            self.vault_b as int,
            amount_a as int,
            amount_b as int,
        ) {
            Err(AmmError::ReserveRatioMismatch)
        } else if shares == 0 {
            Err(AmmError::NoSharesToMint)
        } else if self.total_shares + shares > u64::MAX {
            Err(AmmError::MintFailed)
        } else {
            Ok(
                (
                    Reserves {
                        vault_a: (self.vault_a + amount_a) as u64,
                        vault_b: (self.vault_b + amount_b) as u64,
                        total_shares: (self.total_shares + shares) as u64,
                    },
                    shares as u64,
                ),
            )
        }
    }

    /// What redeeming `shares` does: the reserves after it and the amounts
    /// of the two assets paid out, or the reason why it is refused. Shares
    /// have to be outstanding, else there is nothing to take a part of, and
    /// no more can be retired than are outstanding.
    pub open spec fn withdraw_outcome(self, shares: u64) -> Result<
        (Reserves, (u64, u64)),
        AmmError,
    > {
        let amount_a = redeemed_amount(
            self.vault_a as int,
            shares as int,
            self.total_shares as int,
        );
        let amount_b = redeemed_amount(
            self.vault_b as int,
            shares as int,
            self.total_shares as int,
        );
        if self.total_shares == 0 {
            Err(AmmError::InvalidAmount)
        } else if shares > self.total_shares {
            Err(AmmError::BurnFailed)
        } else {
            Ok(
                (
                    Reserves {
                        vault_a: (self.vault_a - amount_a) as u64,
                        vault_b: (self.vault_b - amount_b) as u64,
                        total_shares: (self.total_shares - shares) as u64,
                    },
                    (amount_a as u64, amount_b as u64),
                ),
            )
        }
    }

    /// What a swap of `amount_in` of the asset `side_in` does: the reserves
    /// after it and the amount of the other asset paid out, or the reason
    /// why it is refused. The amount has to be positive and the vault needs
    /// room for it. The price is taken on the reserves before the swap.
    pub open spec fn swap_outcome(self, side_in: Side, amount_in: u64) -> Result<
        (Reserves, u64),
        AmmError,
    > {
        let vault_in = self.vault(side_in);
        let vault_out = self.vault(side_in.other());
        let amount_out = swap_output(vault_out as int, vault_in as int, amount_in as int);
        if amount_in == 0 {
            Err(AmmError::InvalidAmount)
        } else if vault_in + amount_in > u64::MAX {
            Err(AmmError::TransferFailed)
        } else {
            Ok(
                (
                    self.with_vault(side_in, (vault_in + amount_in) as u64).with_vault(
                        side_in.other(),
                        (vault_out - amount_out) as u64,
                    ),
                    amount_out as u64,
                ),
            )
        }
    }

    /// The reserves of a pool that has received nothing yet.
    pub fn new() -> (reserves: Reserves)
        ensures
            reserves == Reserves::empty(),
    {
        Reserves { vault_a: 0, vault_b: 0, total_shares: 0 }
    }

    /// The balance of the vault of `side`.
    pub fn balance(&self, side: Side) -> (balance: u64)
        ensures
            balance == self.vault(side),
    {
        match side {
            Side::A => self.vault_a,
            Side::B => self.vault_b,
        }
    }

    /// Sets the balance of the vault of `side`.
    pub fn set_balance(&mut self, side: Side, balance: u64)
        ensures
            *final(self) == old(self).with_vault(side, balance),
    {
        match side {
            Side::A => {
                self.vault_a = balance;
            },
            Side::B => {
                self.vault_b = balance;
            },
        }
    }

    /// Takes a deposit of both assets and issues shares for it.
    pub fn deposit(&mut self, amount_a: u64, amount_b: u64) -> (minted: Result<u64, AmmError>)
        ensures
            settles(
                old(self).deposit_outcome(amount_a, amount_b),
                *old(self),
                *final(self),
                minted,
            ),
    {
        if amount_a == 0 || amount_b == 0 {
            return Err(AmmError::InvalidAmount);
        }
        if amount_a > u64::MAX - self.vault_a || amount_b > u64::MAX - self.vault_b {
            return Err(AmmError::TransferFailed);
        }
        if (self.vault_a > 0 || self.vault_b > 0) && !ratio_holds(
            self.vault_a,
            self.vault_b,
            amount_a,
            amount_b,
        ) {
            return Err(AmmError::ReserveRatioMismatch);
        }
        let reserve_a: u64 = self.vault_a + amount_a;
        let reserve_b: u64 = self.vault_b + amount_b;
        let shares: u64 = if self.total_shares == 0 {
            match first_deposit_shares(amount_a, amount_b) {
                Some(shares) => shares,
                None => {
                    return Err(AmmError::MintFailed);
                },
            }
        } else {
            later_deposit_shares(amount_a, amount_b, self.total_shares, reserve_a, reserve_b) as u64
        };
        if shares == 0 {
            return Err(AmmError::NoSharesToMint);
        }
        if shares > u64::MAX - self.total_shares {
            return Err(AmmError::MintFailed);
        }
        self.vault_a = reserve_a;
        self.vault_b = reserve_b;
        self.total_shares = self.total_shares + shares;
        Ok(shares)
    }

    /// Retires `shares` and pays out their part of both vaults.
    pub fn withdraw(&mut self, shares: u64) -> (paid: Result<(u64, u64), AmmError>)
        ensures
            settles(old(self).withdraw_outcome(shares), *old(self), *final(self), paid),
    {
        if self.total_shares == 0 {
            return Err(AmmError::InvalidAmount);
        }
        if shares > self.total_shares {
            return Err(AmmError::BurnFailed);
        }
        let amount_a: u64 = withdrawal_amount(self.vault_a, shares, self.total_shares) as u64;
        let amount_b: u64 = withdrawal_amount(self.vault_b, shares, self.total_shares) as u64;
        self.vault_a = self.vault_a - amount_a;
        self.vault_b = self.vault_b - amount_b;
        self.total_shares = self.total_shares - shares;
        Ok((amount_a, amount_b))
    }

    /// Takes `amount_in` of the asset `side_in` and pays out the other asset
    /// at the price of the curve. A payment so small that the price rounds
    /// down to nothing is taken all the same.
    pub fn swap(&mut self, side_in: Side, amount_in: u64) -> (paid: Result<u64, AmmError>)
        ensures
            settles(old(self).swap_outcome(side_in, amount_in), *old(self), *final(self), paid),
    {
        if amount_in == 0 {
            return Err(AmmError::InvalidAmount);
        }
        let vault_in: u64 = self.balance(side_in);
        let vault_out: u64 = self.balance(side_in.opposite());
        if amount_in > u64::MAX - vault_in {
            return Err(AmmError::TransferFailed);
        }
        let amount_out: u64 = swap_amount_out(vault_out, vault_in, amount_in);
        self.set_balance(side_in, vault_in + amount_in);
        self.set_balance(side_in.opposite(), vault_out - amount_out);
        Ok(amount_out)
    }
}

} // verus!
