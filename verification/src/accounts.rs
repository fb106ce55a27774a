//! Accounts of other programs, as far as the instructions read them.

use vstd::prelude::*;
use crate::pubkey::Pubkey;

verus! {

/// A token account: where it lives, which token it holds, whose it is, and
/// how much is in it.
#[derive(Clone, Copy, Debug, PartialEq, Eq)]
pub struct TokenAccount {
    /// The address of the account.
    pub key: Pubkey,
    /// The mint of the token that the account holds.
    pub mint: Pubkey,
    /// The owner of the account.
    pub owner: Pubkey,
    /// The balance.
    pub amount: u64,
}

/// A pool of the market maker: where it lives and where its price stands.
#[derive(Clone, Copy, Debug, PartialEq, Eq)]
pub struct PoolAccount {
    /// The address of the pool.
    pub key: Pubkey,
    /// The tick of the pool's current price.
    pub current_tick: i32,
}

} // verus!
