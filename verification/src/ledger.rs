//! What the ledger is asked to do once an operation is decided: the
//! movements of tokens, in the order in which they are made.

use crate::error::AmmError;
use crate::reserves::{Reserves, Side};
use vstd::prelude::*;

verus! {

/// One movement of tokens between the caller and the pool.
#[derive(Clone, Copy, Debug, PartialEq, Eq, Structural)]
pub enum Effect {
    /// The caller pays `amount` of the asset on `side` into the pool's
    /// vault. The caller signs.
    TransferIn { side: Side, amount: u64 },
    /// The pool pays `amount` of the asset on `side` out of its vault to the
    /// caller. The pool signs.
    TransferOut { side: Side, amount: u64 },
    /// The pool issues `shares` to the caller. The pool signs.
    Mint { shares: u64 },
    /// The pool retires `shares` of the caller. The pool signs.
    Burn { shares: u64 },
}

/// The movements of a deposit: both assets arrive, then the shares are
/// issued.
pub open spec fn deposit_effects(amount_a: u64, amount_b: u64, shares: u64) -> Seq<Effect> {
    seq![
        Effect::TransferIn { side: Side::A, amount: amount_a },
        Effect::TransferIn { side: Side::B, amount: amount_b },
        Effect::Mint { shares },
    ]
}

/// The movements of a withdrawal: the shares are retired first, then both
/// assets are paid out, so that no payment can leave the pool for shares
/// that still stand.
pub open spec fn withdrawal_effects(shares: u64, amount_a: u64, amount_b: u64) -> Seq<Effect> {
    seq![
        Effect::Burn { shares },
        Effect::TransferOut { side: Side::A, amount: amount_a },
        Effect::TransferOut { side: Side::B, amount: amount_b },
    ]
}

/// The movements of a swap: the payment arrives, then the other asset is
/// paid out.
pub open spec fn swap_effects(side_in: Side, amount_in: u64, amount_out: u64) -> Seq<Effect> {
    seq![
        Effect::TransferIn { side: side_in, amount: amount_in },
        Effect::TransferOut { side: side_in.other(), amount: amount_out },
    ]
}

impl Reserves {
    /// The reserves after one movement, or the reason why the ledger
    /// refuses it: a balance or the supply would leave its range.
    pub open spec fn after_effect(self, effect: Effect) -> Result<Reserves, AmmError> {
        match effect {
            Effect::TransferIn { side, amount } => if self.vault(side) + amount > u64::MAX {
                Err(AmmError::TransferFailed)
            } else {
                Ok(self.with_vault(side, (self.vault(side) + amount) as u64))
            },
            Effect::TransferOut { side, amount } => if amount > self.vault(side) {
                Err(AmmError::TransferFailed)
            } else {
                Ok(self.with_vault(side, (self.vault(side) - amount) as u64))
            },
            Effect::Mint { shares } => if self.total_shares + shares > u64::MAX {
                Err(AmmError::MintFailed)
            } else {
                Ok(Reserves { total_shares: (self.total_shares + shares) as u64, ..self })
            },
            Effect::Burn { shares } => if shares > self.total_shares {
                Err(AmmError::BurnFailed)
            } else {
                Ok(Reserves { total_shares: (self.total_shares - shares) as u64, ..self })
            },
        }
    }

    /// The reserves after the movements `effects`, made in order, or the
    /// reason why the ledger refuses the first one that it refuses.
    pub open spec fn after_effects(self, effects: Seq<Effect>) -> Result<Reserves, AmmError>
        decreases effects.len(),
    {
        if effects.len() == 0 {
            Ok(self)
        } else {
            match self.after_effect(effects[0]) {
                Ok(next) => next.after_effects(effects.drop_first()),
                Err(reason) => Err(reason),
            }
        }
    }

    /// Makes one movement on the reserves, as the ledger would.
    pub fn apply(&mut self, effect: &Effect) -> (made: Result<(), AmmError>)
        ensures
            match old(self).after_effect(*effect) {
                Ok(after) => *final(self) == after && made is Ok,
                Err(reason) => *final(self) == *old(self) && made == Err::<(), AmmError>(reason),
            },
    {
        match effect {
            Effect::TransferIn { side, amount } => {
                let balance: u64 = self.balance(*side);
                if *amount > u64::MAX - balance {
                    return Err(AmmError::TransferFailed);
                }
                self.set_balance(*side, balance + *amount);
            },
            Effect::TransferOut { side, amount } => {
                let balance: u64 = self.balance(*side);
                if *amount > balance {
                    return Err(AmmError::TransferFailed);
                }
                self.set_balance(*side, balance - *amount);
            },
            Effect::Mint { shares } => {
                if *shares > u64::MAX - self.total_shares {
                    return Err(AmmError::MintFailed);
                }
                self.total_shares = self.total_shares + *shares;
            },
            Effect::Burn { shares } => {
                if *shares > self.total_shares {
                    return Err(AmmError::BurnFailed);
                }
                self.total_shares = self.total_shares - *shares;
            },
        }
        Ok(())
    }

    /// Makes the movements `effects` in order, all of them or none: where
    /// the ledger refuses one, the reserves are left as they were.
    pub fn apply_all(&mut self, effects: &Vec<Effect>) -> (made: Result<(), AmmError>)
        ensures
            match old(self).after_effects(effects@) {
                Ok(after) => *final(self) == after && made is Ok,
                Err(reason) => *final(self) == *old(self) && made == Err::<(), AmmError>(reason),
            },
    {
        let before = *self;
        let mut i: usize = 0;
        assert(effects@.skip(0) =~= effects@);
        while i < effects.len()
            invariant
                i <= effects.len(),
                before == *old(self),
                before.after_effects(effects@) == self.after_effects(effects@.skip(i as int)),
            decreases effects.len() - i,
        {
            proof {
                assert(effects@.skip(i as int).drop_first() =~= effects@.skip(i + 1));
            }
            match self.apply(&effects[i]) {
                Ok(_) => {},
                Err(reason) => {
                    *self = before;
                    return Err(reason);
                },
            }
            i = i + 1;
        }
        Ok(())
    }
}

/// The movements of a deposit, in order.
pub fn effects_of_deposit(amount_a: u64, amount_b: u64, shares: u64) -> (effects: Vec<Effect>)
    ensures
        effects@ == deposit_effects(amount_a, amount_b, shares),
{
    let mut effects: Vec<Effect> = Vec::new();
    effects.push(Effect::TransferIn { side: Side::A, amount: amount_a });
    effects.push(Effect::TransferIn { side: Side::B, amount: amount_b });
    effects.push(Effect::Mint { shares });
    assert(effects@ =~= deposit_effects(amount_a, amount_b, shares));
    effects
}

/// The movements of a withdrawal, in order.
pub fn effects_of_withdrawal(shares: u64, amount_a: u64, amount_b: u64) -> (effects: Vec<Effect>)
    ensures
        effects@ == withdrawal_effects(shares, amount_a, amount_b),
{
    let mut effects: Vec<Effect> = Vec::new();
    effects.push(Effect::Burn { shares });
    effects.push(Effect::TransferOut { side: Side::A, amount: amount_a });
    effects.push(Effect::TransferOut { side: Side::B, amount: amount_b });
    assert(effects@ =~= withdrawal_effects(shares, amount_a, amount_b));
    effects
}

/// The movements of a swap, in order.
pub fn effects_of_swap(side_in: Side, amount_in: u64, amount_out: u64) -> (effects: Vec<Effect>)
    ensures
        effects@ == swap_effects(side_in, amount_in, amount_out),
{
    let mut effects: Vec<Effect> = Vec::new();
    effects.push(Effect::TransferIn { side: side_in, amount: amount_in });
    effects.push(Effect::TransferOut { side: side_in.opposite(), amount: amount_out });
    assert(effects@ =~= swap_effects(side_in, amount_in, amount_out));
    effects
}

} // verus!
