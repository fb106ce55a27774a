//! The distribution policy of a vault.

use vstd::prelude::*;
use crate::pubkey::Pubkey;

verus! {

/// The rules by which the fees of a vault are distributed. They are set once
/// and never changed.
#[derive(Clone, Copy, Debug, PartialEq, Eq)]
pub struct PolicyState {
    /// The vault that the policy belongs to.
    pub vault: Pubkey,
    /// The creator's wallet.
    pub creator_wallet: Pubkey,
    /// The creator's quote token account, which receives the remainder.
    pub creator_quote_ata: Pubkey,
    /// The mint of the quote token.
    pub quote_mint: Pubkey,
    /// The largest share of the fees that goes to the investors, in basis points.
    pub investor_fee_share_bps: u16,
    /// The most that may be distributed to the investors in one day, if limited.
    pub daily_cap_lamports: Option<u64>,
    /// The smallest share that is paid out; smaller ones are withheld as dust.
    pub min_payout_lamports: u64,
    /// The investors' total allocation, against which the locked fraction is measured.
    pub y0_total_allocation: u64,
    /// The bump of the record's address.
    pub bump: u8,
}

impl PolicyState {
    /// The size of the stored record in bytes.
    pub const LEN: usize = 8 + 32 + 32 + 32 + 32 + 2 + 1 + 8 + 8 + 8 + 1;

    /// The investors' share is at most everything, and there is an allocation
    /// to measure against.
    pub open spec fn well_formed(&self) -> bool {
        &&& self.investor_fee_share_bps <= 10000
        &&& self.y0_total_allocation > 0
    }
}

} // verus!
