//! Redeeming a tranche: the holder's share of the vault is paid out and both
//! of the holder's tranche token balances are burnt.
use vstd::prelude::*;
use crate::action::TrancheAction;
use crate::error::ErrorCode;
use crate::state::{Key, TrancheConfig};

verus! {

/// The accounts that redeeming works with, and the balances it reads.
#[derive(Clone, Copy, Debug, PartialEq, Eq)]
pub struct RedeemContext {
    /// The holder, who signs.
    pub authority: Key,
    /// The address of the tranche config account.
    pub tranche_config_address: Key,
    /// The contents of the tranche config account.
    pub tranche_config: TrancheConfig,
    pub deposit_mint: Key,
    /// The tranche's account of the deposit token.
    pub tranche_vault: Key,
    pub tranche_vault_amount: u64,
    /// The holder's account of the deposit token, which receives the payout.
    pub deposit_to_account: Key,
    pub senior_tranche_mint: Key,
    /// The holder's account of the senior tranche token.
    pub senior_tranche_vault: Key,
    pub senior_tranche_vault_amount: u64,
    pub junior_tranche_mint: Key,
    /// The holder's account of the junior tranche token.
    pub junior_tranche_vault: Key,
    pub junior_tranche_vault_amount: u64,
    /// The cluster clock's unix timestamp.
    pub unix_timestamp: i64,
}

/// A signed timestamp read as unsigned: negative values wrap around.
pub open spec fn timestamp_as_u64(unix_timestamp: i64) -> int {
    if unix_timestamp >= 0 {
        unix_timestamp as int
    } else {
        unix_timestamp + 0x1_0000_0000_0000_0000
    }
}

/// Before the end date, the holder must hold senior and junior tokens in the
/// ratio they were minted in.
pub fn ratio_check_required(end_date: u64, unix_timestamp: i64) -> (required: bool)
    ensures
        required == (end_date > timestamp_as_u64(unix_timestamp)),
        unix_timestamp >= 0 ==> (required <==> unix_timestamp < end_date),
        unix_timestamp < 0 ==> (required <==> unix_timestamp + 0x1_0000_0000_0000_0000 < end_date),
{
    let now: u64 = unix_timestamp as u64;
    assert(now as int == timestamp_as_u64(unix_timestamp)) by (bit_vector)
        requires
            now == unix_timestamp as u64,
    ;
    end_date > now
}

/// The capital and interest in a vault holding `vault_amount` of a tranche
/// whose deposit was `quantity`.
pub open spec fn spec_redeemable_amounts(vault_amount: u64, quantity: u64) -> (u64, u64) {
    if vault_amount >= quantity {
        (quantity, (vault_amount - quantity) as u64)
    } else {
        (vault_amount, 0)
    }
}

/// Splits the vault into capital and interest: the capital is the deposit
/// (or all there is, if the vault holds less), the interest is the rest.
pub fn redeemable_amounts(vault_amount: u64, quantity: u64) -> (amounts: [u64; 2])
    ensures
        (amounts[0], amounts[1]) == spec_redeemable_amounts(vault_amount, quantity),
{
    if vault_amount >= quantity {
        [quantity, vault_amount - quantity]
    } else {
        [vault_amount, 0]
    }
}

/// Capital and interest together are the whole vault; the capital never
/// exceeds the deposit, and there is interest only once the deposit is whole.
pub proof fn lemma_redeemable_amounts_split_vault(vault_amount: u64, quantity: u64)
    ensures
        ({
            let (capital, interest): (u64, u64) = spec_redeemable_amounts(vault_amount, quantity);
            &&& capital + interest == vault_amount
            &&& capital <= quantity
            &&& interest > 0 ==> capital == quantity
            &&& vault_amount <= quantity ==> interest == 0
        }),
{
}

/// What redeeming asks of the token program, in order: the payout from the
/// tranche vault, signed by the config account, then the burning of the
/// holder's whole senior and junior balances.
pub open spec fn redeem_actions(ctx: RedeemContext, payout: u64) -> Seq<TrancheAction> {
    seq![
        TrancheAction::TransferFromVault {
            from: ctx.tranche_vault,
            to: ctx.deposit_to_account,
            authority: ctx.tranche_config_address,
            amount: payout,
            deposit_mint: ctx.deposit_mint,
            senior_tranche_mint: ctx.senior_tranche_mint,
            junior_tranche_mint: ctx.junior_tranche_mint,
            bump: ctx.tranche_config.tranche_config_bump,
        },
        TrancheAction::Burn {
            mint: ctx.senior_tranche_mint,
            from: ctx.senior_tranche_vault,
            authority: ctx.authority,
            amount: ctx.senior_tranche_vault_amount,
        },
        TrancheAction::Burn {
            mint: ctx.junior_tranche_mint,
            from: ctx.junior_tranche_vault,
            authority: ctx.authority,
            amount: ctx.junior_tranche_vault_amount,
        },
    ]
}

/// Redeeming surrenders all of the holder's tranche tokens: both balances are
/// burnt in full, after the payout.
pub proof fn lemma_redeem_burns_all_tranche_tokens(ctx: RedeemContext, payout: u64)
    ensures
        redeem_actions(ctx, payout).len() == 3,
        redeem_actions(ctx, payout)[0] matches TrancheAction::TransferFromVault { amount, .. } && amount == payout,
        redeem_actions(ctx, payout)[1] matches TrancheAction::Burn { from, amount, .. }
            && from == ctx.senior_tranche_vault && amount == ctx.senior_tranche_vault_amount,
        redeem_actions(ctx, payout)[2] matches TrancheAction::Burn { from, amount, .. }
            && from == ctx.junior_tranche_vault && amount == ctx.junior_tranche_vault_amount,
{
}

/// Whatever the dates, the payout goes from the tranche vault to the holder's
/// deposit account, signed by the tranche config account with the seeds of
/// the deposit, senior and junior mints and the recorded bump; then the
/// holder's senior and junior balances are burnt in full, on the holder's
/// signature.
pub proof fn lemma_redeem_pays_the_holder(ctx: RedeemContext, payout: u64)
    ensures
        redeem_actions(ctx, payout) == seq![
            TrancheAction::TransferFromVault {
                from: ctx.tranche_vault,
                to: ctx.deposit_to_account,
                authority: ctx.tranche_config_address,
                amount: payout,
                deposit_mint: ctx.deposit_mint,
                senior_tranche_mint: ctx.senior_tranche_mint,
                junior_tranche_mint: ctx.junior_tranche_mint,
                bump: ctx.tranche_config.tranche_config_bump,
            },
            TrancheAction::Burn {
                mint: ctx.senior_tranche_mint,
                from: ctx.senior_tranche_vault,
                authority: ctx.authority,
                amount: ctx.senior_tranche_vault_amount,
            },
            TrancheAction::Burn {
                mint: ctx.junior_tranche_mint,
                from: ctx.junior_tranche_vault,
                authority: ctx.authority,
                amount: ctx.junior_tranche_vault_amount,
            },
        ],
{
}

/// The ratio check applies exactly while the clock, read as unsigned, is
/// before the end date: for a non-negative timestamp, exactly when it is
/// below the end date; a negative one reads as 2^64 plus its value.
pub proof fn lemma_ratio_check_before_end_date(end_date: u64, unix_timestamp: i64)
    ensures
        unix_timestamp >= 0 ==> ((end_date > timestamp_as_u64(unix_timestamp)) <==> unix_timestamp < end_date),
        unix_timestamp < 0 ==> ((end_date > timestamp_as_u64(unix_timestamp)) <==> unix_timestamp
            + 0x1_0000_0000_0000_0000 < end_date),
{
}

/// Redeems, given the holder's payout or the reason it was refused: a refusal
/// is returned as it is; a payout gives the requests to perform, in order.
pub fn redeem(ctx: &RedeemContext, payout: Result<u64, ErrorCode>) -> (result: Result<
    Vec<TrancheAction>,
    ErrorCode,
>)
    ensures
        match payout {
            Ok(amount) => result matches Ok(actions) && actions@ == redeem_actions(*ctx, amount)
                && actions@.len() == 3 && actions@[0] == (TrancheAction::TransferFromVault {
                from: ctx.tranche_vault,
                to: ctx.deposit_to_account,
                authority: ctx.tranche_config_address,
                amount,
                deposit_mint: ctx.deposit_mint,
                senior_tranche_mint: ctx.senior_tranche_mint,
                junior_tranche_mint: ctx.junior_tranche_mint,
                bump: ctx.tranche_config.tranche_config_bump,
            }) && actions@[1] == (TrancheAction::Burn {
                mint: ctx.senior_tranche_mint,
                from: ctx.senior_tranche_vault,
                authority: ctx.authority,
                amount: ctx.senior_tranche_vault_amount,
            }) && actions@[2] == (TrancheAction::Burn {
                mint: ctx.junior_tranche_mint,
                from: ctx.junior_tranche_vault,
                authority: ctx.authority,
                amount: ctx.junior_tranche_vault_amount,
            }),
            Err(e) => result == Err::<Vec<TrancheAction>, ErrorCode>(e),
        },
{
    let amount: u64 = match payout {
        Ok(amount) => amount,
        Err(e) => {
            return Err(e);
        },
    };
    let mut actions: Vec<TrancheAction> = Vec::new();
    actions.push(TrancheAction::TransferFromVault {
        from: ctx.tranche_vault,
        to: ctx.deposit_to_account,
        authority: ctx.tranche_config_address,
        amount,
        deposit_mint: ctx.deposit_mint,
        senior_tranche_mint: ctx.senior_tranche_mint,
        junior_tranche_mint: ctx.junior_tranche_mint,
        bump: ctx.tranche_config.tranche_config_bump,
    });
    actions.push(TrancheAction::Burn {
        mint: ctx.senior_tranche_mint,
        from: ctx.senior_tranche_vault,
        authority: ctx.authority,
        amount: ctx.senior_tranche_vault_amount,
    });
    actions.push(TrancheAction::Burn {
        mint: ctx.junior_tranche_mint,
        from: ctx.junior_tranche_vault,
        authority: ctx.authority,
        amount: ctx.junior_tranche_vault_amount,
    });
    proof {
        assert(actions@ =~= redeem_actions(*ctx, amount));
    }
    Ok(actions)
}

} // verus!
