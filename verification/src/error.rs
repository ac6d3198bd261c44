//! The ways in which an operation on a pool ends without effect.

use vstd::prelude::*;

verus! {

/// Why an operation was refused. A refused operation changes nothing.
#[derive(Clone, Copy, Debug, PartialEq, Eq, Structural)]
pub enum AmmError {
    /// The presented pool is not the pool derived from the asset pair.
    InvalidPoolIdentity,
    /// The presented share token is not the one derived from the asset pair.
    InvalidShareTokenIdentity,
    /// An amount that has to be positive is zero.
    InvalidAmount,
    /// A deposit into a funded pool is not in the ratio of the reserves.
    ReserveRatioMismatch,
    /// The deposit is too small to earn a single share.
    NoSharesToMint,
    /// The asset paid into a swap is neither asset of the pool.
    UnsupportedAsset,
    /// The ledger cannot move the tokens: a balance would leave its range.
    TransferFailed,
    /// The ledger cannot issue the shares: the supply would leave its range.
    MintFailed,
    /// The ledger cannot retire the shares: more than the supply.
    BurnFailed,
}

impl AmmError {
    /// The words that tell a user why the operation was refused.
    pub open spec fn message_text(self) -> Seq<char> {
        match self {
            AmmError::InvalidPoolIdentity => "Pool address is not valid"@,
            AmmError::InvalidShareTokenIdentity => "LP token mint address is not valid"@,
            AmmError::InvalidAmount => "Token amount must be greater than zero"@,
            AmmError::ReserveRatioMismatch => "Change amount of token a or token b to add liquidity"@,
            AmmError::NoSharesToMint => "No lp tokens to mint"@,
            AmmError::UnsupportedAsset => "Token not available in pool"@,
            AmmError::TransferFailed => "Token transfer failed"@,
            AmmError::MintFailed => "Minting lp tokens failed"@,
            AmmError::BurnFailed => "Burning lp tokens failed"@,
        }
    }

    /// Tells a user why the operation was refused.
    pub fn message(&self) -> (text: &'static str)
        ensures
            text@ == self.message_text(),
    {
        match self {
            AmmError::InvalidPoolIdentity => "Pool address is not valid",
            AmmError::InvalidShareTokenIdentity => "LP token mint address is not valid",
            AmmError::InvalidAmount => "Token amount must be greater than zero",
            AmmError::ReserveRatioMismatch => "Change amount of token a or token b to add liquidity",
            AmmError::NoSharesToMint => "No lp tokens to mint",
            AmmError::UnsupportedAsset => "Token not available in pool",
            AmmError::TransferFailed => "Token transfer failed",
            AmmError::MintFailed => "Minting lp tokens failed",
            AmmError::BurnFailed => "Burning lp tokens failed",
        }
    }
}

} // verus!
