//! The record of a pool: the asset pair, the vaults and the share token it
//! binds together.

use crate::address::{derives, pool_address, share_token_address, vault_a_address, vault_b_address};
use crate::identity::Identity;
use vstd::prelude::*;

verus! {

/// The stored record of a pool. It is written once, when the pool is
/// created; deposits, withdrawals and swaps leave it as it is.
#[derive(Clone, Copy, Debug, PartialEq, Eq)]
pub struct Pool {
    /// Bump seed of the pool's own address, by which the pool signs for its
    /// vaults.
    pub bump: u8,
    /// Who created the pool.
    pub authority: Identity,
    /// The first asset of the pair.
    pub token_mint_a: Identity,
    /// The second asset of the pair.
    pub token_mint_b: Identity,
    /// The vault that holds the reserve of the first asset.
    pub token_vault_a: Identity,
    /// The vault that holds the reserve of the second asset.
    pub token_vault_b: Identity,
    /// The share token of the pool.
    pub lp_token_mint: Identity,
}

/// A pool record in work: the fields of the record beside the address of
/// the account that stores it.
#[derive(Clone, Copy, Debug, PartialEq, Eq)]
pub struct LoadedPool {
    /// Address of the account that stores the record.
    pub key: Identity,
    /// Bump seed of that address.
    pub bump: u8,
    /// Who created the pool.
    pub authority: Identity,
    /// The first asset of the pair.
    pub token_mint_a: Identity,
    /// The second asset of the pair.
    pub token_mint_b: Identity,
    /// The vault that holds the reserve of the first asset.
    pub token_vault_a: Identity,
    /// The vault that holds the reserve of the second asset.
    pub token_vault_b: Identity,
    /// The share token of the pool.
    pub lp_token_mint: Identity,
}

/// An account that is being created, with the bump seed of its address
/// where the address is a derived one.
#[derive(Debug)]
pub struct Empty<T> {
    /// The account.
    pub account: T,
    /// Bump seed of its address, where the address is derived.
    pub bump: Option<u8>,
}

impl<T: Clone> Clone for Empty<T> {
    fn clone(&self) -> (copy: Self)
        ensures
            copy.bump == self.bump,
    {
        Empty { account: self.account.clone(), bump: self.bump }
    }
}

/// Thirty-two zero bytes.
pub open spec fn zero_bytes() -> Seq<u8> {
    Seq::new(32, |i: int| 0u8)
}

impl LoadedPool {
    /// The record that the loaded pool stands for.
    pub open spec fn record(self) -> Pool {
        Pool {
            bump: self.bump,
            authority: self.authority,
            token_mint_a: self.token_mint_a,
            token_mint_b: self.token_mint_b,
            token_vault_a: self.token_vault_a,
            token_vault_b: self.token_vault_b,
            lp_token_mint: self.lp_token_mint,
        }
    }

    /// The pool sits at the address derived from its asset pair, records
    /// the bump seed of that address, and its vaults and share token are
    /// the ones derived from the pair.
    pub open spec fn is_canonical(self) -> bool {
        &&& pool_address(self.token_mint_a@, self.token_mint_b@) == Some((self.key@, self.bump))
        &&& derives(vault_a_address(self.token_mint_a@), self.token_vault_a@)
        &&& derives(vault_b_address(self.token_mint_b@), self.token_vault_b@)
        &&& derives(
            share_token_address(self.token_mint_a@, self.token_mint_b@),
            self.lp_token_mint@,
        )
    }
}

impl Pool {
    /// The record in work at the address `key`.
    pub open spec fn at(self, key: Identity) -> LoadedPool {
        LoadedPool {
            key,
            bump: self.bump,
            authority: self.authority,
            token_mint_a: self.token_mint_a,
            token_mint_b: self.token_mint_b,
            token_vault_a: self.token_vault_a,
            token_vault_b: self.token_vault_b,
            lp_token_mint: self.lp_token_mint,
        }
    }

    /// A record with nothing written to it yet: every byte is zero.
    pub fn blank() -> (account: Pool)
        ensures
            account.bump == 0,
            account.authority@ == zero_bytes(),
            account.token_mint_a@ == zero_bytes(),
            account.token_mint_b@ == zero_bytes(),
            account.token_vault_a@ == zero_bytes(),
            account.token_vault_b@ == zero_bytes(),
            account.lp_token_mint@ == zero_bytes(),
    {
        let zero = Identity::new([0u8; 32]);
        assert(zero@ =~= zero_bytes());
        Pool {
            bump: 0,
            authority: zero,
            token_mint_a: zero,
            token_mint_b: zero,
            token_vault_a: zero,
            token_vault_b: zero,
            lp_token_mint: zero,
        }
    }

    /// Reads the record stored at the address `key`.
    pub fn load(key: &Identity, account: &Pool) -> (loaded: LoadedPool)
        ensures
            loaded == account.at(*key),
    {
        LoadedPool {
            key: *key,
            bump: account.bump,
            authority: account.authority,
            token_mint_a: account.token_mint_a,
            token_mint_b: account.token_mint_b,
            token_vault_a: account.token_vault_a,
            token_vault_b: account.token_vault_b,
            lp_token_mint: account.lp_token_mint,
        }
    }

    /// Writes the fields of a loaded pool back to the record.
    pub fn store(loaded: &LoadedPool, account: &mut Pool)
        ensures
            *final(account) == loaded.record(),
    {
        account.bump = loaded.bump;
        account.authority = loaded.authority;
        account.token_mint_a = loaded.token_mint_a;
        account.token_mint_b = loaded.token_mint_b;
        account.token_vault_a = loaded.token_vault_a;
        account.token_vault_b = loaded.token_vault_b;
        account.lp_token_mint = loaded.lp_token_mint;
    }
}

} // verus!
