use vstd::prelude::*;

verus! {

/// A 32-byte account address.
pub type Key = [u8; 32];

/// The parameters and bookkeeping of one tranche, as stored in its config account.
#[derive(Clone, Copy, Debug, PartialEq, Eq)]
pub struct TrancheConfig {
    pub authority: Key,
    pub quantity: u64,
    pub capital_split: [u32; 2],
    pub interest_split: [u32; 2],
    pub mint_count: [u64; 2],
    pub junior_tranche_mint: Key,
    pub senior_tranche_mint: Key,
    pub created_at: u64,
    pub start_date: u64,
    pub end_date: u64,
    pub create_serum: bool,
    pub can_mint_more: bool,
    pub tranche_config_bump: u8,
    pub senior_tranche_mint_bump: u8,
    pub junior_tranche_mint_bump: u8,
}

impl TrancheConfig {
    /// Space reserved for the config account: an 8-byte account discriminator
    /// followed by the fields in order.
    pub const LEN: usize = 8 + 32 + 8 + 2 * 4 + 2 * 4 + 2 * 8 + 32 + 32 + 8 + 8 + 8 + 1 + 1 + 1 + 1 + 1;

    /// Records who created the tranche, which mints represent its two halves,
    /// and the bump seeds of the derived accounts; every other field is kept.
    pub fn record_accounts(
        &mut self,
        authority: Key,
        senior_tranche_mint: Key,
        junior_tranche_mint: Key,
        tranche_config_bump: u8,
        senior_tranche_mint_bump: u8,
        junior_tranche_mint_bump: u8,
    )
        ensures
            *final(self) == (TrancheConfig {
                authority,
                senior_tranche_mint,
                junior_tranche_mint,
                tranche_config_bump,
                senior_tranche_mint_bump,
                junior_tranche_mint_bump,
                ..*old(self)
            }),
    {
        self.authority = authority;
        self.senior_tranche_mint = senior_tranche_mint;
        self.junior_tranche_mint = junior_tranche_mint;
        self.tranche_config_bump = tranche_config_bump;
        self.senior_tranche_mint_bump = senior_tranche_mint_bump;
        self.junior_tranche_mint_bump = junior_tranche_mint_bump;
    }
}

} // verus!
