//! The serum market that each tranche gets: the parameters it is opened
//! with, and the nonce of its vault signer.
use vstd::prelude::*;
use crate::state::Key;
use anchor_lang::prelude::Pubkey;
use anchor_spl::dex::serum_dex::state::gen_vault_signer_key;

verus! {

/// Lot size of the junior tranche token in the market.
pub const COIN_LOT_SIZE: u64 = 100_000;

/// Lot size of the quote token in the market.
pub const PC_LOT_SIZE: u64 = 100;

/// Dust threshold of the quote token in the market.
pub const PC_DUST_THRESHOLD: u64 = 500;

/// Number of nonces tried, from 1 upwards, when looking for a vault signer.
pub const VAULT_SIGNER_NONCE_LIMIT: u64 = 100;

/// The address that the serum program derives as vault signer of `market`
/// for `nonce`, or `None` where that derivation yields no valid address.
pub uninterp spec fn spec_vault_signer_key(nonce: u64, market: Seq<u8>, program_id: Seq<u8>) -> Option<Seq<u8>>;

/// Calls `serum_dex::state::gen_vault_signer_key`, which derives a program
/// address from the market's address and the nonce's bytes (in the target's
/// byte order, little-endian on every Solana target); its result depends on
/// these arguments alone, and the contract names it. An error of the call
/// becomes `None`; which error it was is not kept.
#[verifier::external_body]
fn vault_signer_key(nonce: u64, market: &Key, program_id: &Key) -> (key: Option<Key>)
    ensures
        match key {
            Some(k) => spec_vault_signer_key(nonce, market@, program_id@) == Some(k@),
            None => spec_vault_signer_key(nonce, market@, program_id@) is None,
        },
{
    match gen_vault_signer_key(nonce, &Pubkey::new_from_array(*market), &Pubkey::new_from_array(*program_id)) {
        Ok(k) => Some(k.to_bytes()),
        Err(_) => None,
    }
}

/// The last nonce in `1..end` for which a vault signer can be derived, or 0.
pub open spec fn last_vault_signer_nonce(market: Seq<u8>, program_id: Seq<u8>, end: nat) -> u64
    decreases end,
{
    if end <= 1 {
        0
    } else if spec_vault_signer_key((end - 1) as u64, market, program_id) is Some {
        (end - 1) as u64
    } else {
        last_vault_signer_nonce(market, program_id, (end - 1) as nat)
    }
}

/// The search keeps the last nonce that works: the nonce found is either 0,
/// where no nonce in `1..end` derives a vault signer, or one in `1..end` that
/// derives one, with no later nonce below `end` deriving one.
pub proof fn lemma_last_vault_signer_nonce(market: Seq<u8>, program_id: Seq<u8>, end: nat)
    requires
        end <= u64::MAX,
    ensures
        ({
            let n: u64 = last_vault_signer_nonce(market, program_id, end);
            &&& n == 0 ==> forall|j: u64| 1 <= j < end ==> #[trigger] spec_vault_signer_key(j, market, program_id) is None
            &&& n != 0 ==> {
                &&& 1 <= n < end
                &&& spec_vault_signer_key(n, market, program_id) is Some
                &&& forall|j: u64| n < j < end ==> #[trigger] spec_vault_signer_key(j, market, program_id) is None
            }
        }),
    decreases end,
{
    if end > 1 {
        lemma_last_vault_signer_nonce(market, program_id, (end - 1) as nat);
    }
}

/// The nonce the market is opened with.
pub open spec fn spec_vault_signer_nonce(market: Seq<u8>, program_id: Seq<u8>) -> u64 {
    last_vault_signer_nonce(market, program_id, VAULT_SIGNER_NONCE_LIMIT as nat)
}

/// The market's vault signer nonce is the last nonce in `1..100` from which
/// the serum program derives a vault signer, or 0 where none does.
pub proof fn lemma_vault_signer_nonce_is_last_below_100(market: Seq<u8>, program_id: Seq<u8>)
    ensures
        ({
            let n: u64 = spec_vault_signer_nonce(market, program_id);
            &&& n < 100
            &&& n != 0 ==> spec_vault_signer_key(n, market, program_id) is Some
            &&& forall|j: u64| n < j < 100 ==> #[trigger] spec_vault_signer_key(j, market, program_id) is None
        }),
{
    lemma_last_vault_signer_nonce(market, program_id, 100);
}

/// One step of the nonce search: a candidate for which a signer was derived
/// replaces the nonce found so far.
pub fn next_vault_signer_nonce(found: u64, candidate: u64, derived: &Option<Key>) -> (nonce: u64)
    ensures
        nonce == (if derived is Some { candidate } else { found }),
{
    match derived {
        Some(_) => candidate,
        None => found,
    }
}

/// Tries every nonce in `1..100` and keeps the last one for which the serum
/// program derives a vault signer for `market`; 0 where none does.
pub fn find_vault_signer_nonce(market: &Key, program_id: &Key) -> (nonce: u64)
    ensures
        nonce == spec_vault_signer_nonce(market@, program_id@),
        nonce < VAULT_SIGNER_NONCE_LIMIT,
        nonce != 0 ==> spec_vault_signer_key(nonce, market@, program_id@) is Some,
        forall|j: u64|
            nonce < j < VAULT_SIGNER_NONCE_LIMIT ==> #[trigger] spec_vault_signer_key(j, market@, program_id@) is None,
{
    let mut nonce: u64 = 0;
    let mut i: u64 = 1;
    while i < VAULT_SIGNER_NONCE_LIMIT
        invariant
            1 <= i <= VAULT_SIGNER_NONCE_LIMIT,
            nonce == last_vault_signer_nonce(market@, program_id@, i as nat),
        decreases VAULT_SIGNER_NONCE_LIMIT - i,
    {
        let derived: Option<Key> = vault_signer_key(i, market, program_id);
        nonce = next_vault_signer_nonce(nonce, i, &derived);
        i = i + 1;
    }
    proof {
        lemma_last_vault_signer_nonce(market@, program_id@, VAULT_SIGNER_NONCE_LIMIT as nat);
    }
    nonce
}

} // verus!
