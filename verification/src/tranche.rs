//! Creating a tranche: the config account is filled in, the deposit moves
//! into the tranche vault, both tranche tokens are minted to the creator, and
//! a serum market for the junior token is set up.
use vstd::prelude::*;
use crate::action::{SerumAccount, TrancheAction};
use crate::error::ErrorCode;
use crate::serum::{
    find_vault_signer_nonce, spec_vault_signer_nonce, COIN_LOT_SIZE, PC_DUST_THRESHOLD,
    PC_LOT_SIZE,
};
use crate::state::{Key, TrancheConfig};

verus! {

/// The parameters a creator chooses for a new tranche.
#[derive(Clone, Copy, Debug, PartialEq, Eq)]
pub struct CreateTrancheConfigInput {
    pub quantity: u64,
    pub capital_split: [u32; 2],
    pub interest_split: [u32; 2],
    pub mint_count: [u64; 2],
    pub start_date: u64,
    pub end_date: u64,
    pub create_serum: bool,
    pub can_mint_more: bool,
}

/// Basis points that make up a whole.
pub const BPS_WHOLE: u64 = 10_000;

impl CreateTrancheConfigInput {
    /// The parameters describe a tranche that can be redeemed: the senior
    /// and junior shares of the capital, and of the interest, each make up a
    /// whole, and both tranche tokens are minted.
    pub open spec fn spec_is_valid(self) -> bool {
        &&& self.capital_split[0] + self.capital_split[1] == BPS_WHOLE
        &&& self.interest_split[0] + self.interest_split[1] == BPS_WHOLE
        &&& self.mint_count[0] > 0
        &&& self.mint_count[1] > 0
    }

    /// Checks the parameters; refuses them with `InvalidInput` exactly when
    /// they are not valid.
    pub fn is_valid(&self) -> (result: Result<(), ErrorCode>)
        ensures
            result is Ok <==> self.spec_is_valid(),
            result is Ok <==> (self.capital_split[0] + self.capital_split[1] == 10_000
                && self.interest_split[0] + self.interest_split[1] == 10_000
                && self.mint_count[0] != 0 && self.mint_count[1] != 0),
            result matches Err(e) ==> e == ErrorCode::InvalidInput,
    {
        let capital: u64 = self.capital_split[0] as u64 + self.capital_split[1] as u64;
        let interest: u64 = self.interest_split[0] as u64 + self.interest_split[1] as u64;
        if capital != BPS_WHOLE || interest != BPS_WHOLE || self.mint_count[0] == 0
            || self.mint_count[1] == 0 {
            return Err(ErrorCode::InvalidInput);
        }
        Ok(())
    }

    /// Writes the chosen parameters into the config; every other field is kept.
    pub fn create_tranche_config(&self, tranche_config: &mut TrancheConfig)
        ensures
            *final(tranche_config) == (TrancheConfig {
                quantity: self.quantity,
                capital_split: self.capital_split,
                interest_split: self.interest_split,
                mint_count: self.mint_count,
                start_date: self.start_date,
                end_date: self.end_date,
                create_serum: self.create_serum,
                can_mint_more: self.can_mint_more,
                ..*old(tranche_config)
            }),
    {
        tranche_config.quantity = self.quantity;
        tranche_config.capital_split = self.capital_split;
        tranche_config.interest_split = self.interest_split;
        tranche_config.mint_count = self.mint_count;
        tranche_config.start_date = self.start_date;
        tranche_config.end_date = self.end_date;
        tranche_config.create_serum = self.create_serum;
        tranche_config.can_mint_more = self.can_mint_more;
    }
}

/// The addresses that creating a tranche works with.
#[derive(Clone, Copy, Debug, PartialEq, Eq)]
pub struct CreateTranchesContext {
    /// This program's own address.
    pub program_id: Key,
    /// The creator, who signs and pays.
    pub authority: Key,
    /// The creator's account of the deposit token.
    pub deposit_from_account: Key,
    /// The tranche's account of the deposit token.
    pub tranche_vault: Key,
    pub senior_tranche_mint: Key,
    /// The creator's account of the senior tranche token.
    pub senior_tranche_vault: Key,
    pub junior_tranche_mint: Key,
    /// The creator's account of the junior tranche token.
    pub junior_tranche_vault: Key,
    pub market: Key,
    pub request_queue: Key,
    pub event_queue: Key,
    pub asks: Key,
    pub bids: Key,
    /// The market's quote token and the tranche's account of it.
    pub usdc_mint: Key,
    pub usdc_vault: Key,
    /// The serum program.
    pub serum_dex: Key,
    /// The rent sysvar.
    pub rent: Key,
}

/// The config of a new tranche: the input's parameters, then the creator, the
/// two mints and the bumps, over the account as it was initialised.
pub open spec fn created_config(
    ctx: CreateTranchesContext,
    input_data: CreateTrancheConfigInput,
    initial: TrancheConfig,
    tranche_config_bump: u8,
    senior_tranche_mint_bump: u8,
    junior_tranche_mint_bump: u8,
) -> TrancheConfig {
    TrancheConfig {
        quantity: input_data.quantity,
        capital_split: input_data.capital_split,
        interest_split: input_data.interest_split,
        mint_count: input_data.mint_count,
        start_date: input_data.start_date,
        end_date: input_data.end_date,
        create_serum: input_data.create_serum,
        can_mint_more: input_data.can_mint_more,
        authority: ctx.authority,
        senior_tranche_mint: ctx.senior_tranche_mint,
        junior_tranche_mint: ctx.junior_tranche_mint,
        tranche_config_bump,
        senior_tranche_mint_bump,
        junior_tranche_mint_bump,
        ..initial
    }
}

/// The allocation of one serum account, paid by the creator and seeded by
/// the junior mint and vault.
pub open spec fn allocate(ctx: CreateTranchesContext, account: SerumAccount, address: Key) -> TrancheAction {
    TrancheAction::AllocateSerumAccount {
        account,
        address,
        payer: ctx.authority,
        junior_tranche_mint: ctx.junior_tranche_mint,
        junior_tranche_vault: ctx.junior_tranche_vault,
    }
}

/// What creating a tranche asks of the token and serum programs, in order:
/// the deposit of `quantity`, the senior and junior mints of the config's
/// counts, the five serum accounts, then the market with vault signer
/// `nonce`, trading the junior token against the quote token.
pub open spec fn create_tranche_actions(
    ctx: CreateTranchesContext,
    config: TrancheConfig,
    quantity: u64,
    nonce: u64,
) -> Seq<TrancheAction> {
    seq![
        TrancheAction::Transfer {
            from: ctx.deposit_from_account,
            to: ctx.tranche_vault,
            authority: ctx.authority,
            amount: quantity,
        },
        TrancheAction::MintTo {
            mint: ctx.senior_tranche_mint,
            to: ctx.senior_tranche_vault,
            authority: ctx.authority,
            amount: config.mint_count[0],
        },
        TrancheAction::MintTo {
            mint: ctx.junior_tranche_mint,
            to: ctx.junior_tranche_vault,
            authority: ctx.authority,
            amount: config.mint_count[1],
        },
        allocate(ctx, SerumAccount::Market, ctx.market),
        allocate(ctx, SerumAccount::RequestQueue, ctx.request_queue),
        allocate(ctx, SerumAccount::EventQueue, ctx.event_queue),
        allocate(ctx, SerumAccount::Asks, ctx.asks),
        allocate(ctx, SerumAccount::Bids, ctx.bids),
        open_market(ctx, nonce),
    ]
}

/// The request that opens the junior token's market.
pub open spec fn open_market(ctx: CreateTranchesContext, nonce: u64) -> TrancheAction {
    TrancheAction::InitializeMarket {
        dex_program: ctx.serum_dex,
        market: ctx.market,
        coin_mint: ctx.junior_tranche_mint,
        coin_vault: ctx.junior_tranche_vault,
        pc_mint: ctx.usdc_mint,
        pc_vault: ctx.usdc_vault,
        bids: ctx.bids,
        asks: ctx.asks,
        request_queue: ctx.request_queue,
        event_queue: ctx.event_queue,
        rent: ctx.rent,
        coin_lot_size: COIN_LOT_SIZE,
        pc_lot_size: PC_LOT_SIZE,
        vault_signer_nonce: nonce,
        pc_dust_threshold: PC_DUST_THRESHOLD,
    }
}

/// The tranche vault receives exactly the quantity the config records, and
/// the creator receives exactly the recorded number of each tranche token.
pub proof fn lemma_create_tranche_moves_recorded_amounts(
    ctx: CreateTranchesContext,
    input_data: CreateTrancheConfigInput,
    initial: TrancheConfig,
    tranche_config_bump: u8,
    senior_tranche_mint_bump: u8,
    junior_tranche_mint_bump: u8,
    nonce: u64,
)
    ensures
        ({
            let config = created_config(
                ctx,
                input_data,
                initial,
                tranche_config_bump,
                senior_tranche_mint_bump,
                junior_tranche_mint_bump,
            );
            let actions = create_tranche_actions(ctx, config, input_data.quantity, nonce);
            &&& actions[0] matches TrancheAction::Transfer { to, amount, .. }
                && to == ctx.tranche_vault && amount == config.quantity
            &&& actions[1] matches TrancheAction::MintTo { mint, to, amount, .. }
                && mint == config.senior_tranche_mint && to == ctx.senior_tranche_vault
                && amount == config.mint_count[0]
            &&& actions[2] matches TrancheAction::MintTo { mint, to, amount, .. }
                && mint == config.junior_tranche_mint && to == ctx.junior_tranche_vault
                && amount == config.mint_count[1]
        }),
{
}

/// A tranche's parameters are accepted exactly when the two capital shares
/// add up to 10 000 basis points, the two interest shares add up to 10 000
/// basis points, and neither tranche token has a zero mint count.
pub proof fn lemma_valid_input_has_whole_splits(input_data: CreateTrancheConfigInput)
    ensures
        input_data.spec_is_valid() <==> (
            input_data.capital_split[0] + input_data.capital_split[1] == 10_000
            && input_data.interest_split[0] + input_data.interest_split[1] == 10_000
            && input_data.mint_count[0] != 0
            && input_data.mint_count[1] != 0),
{
}

/// The new config holds the input's parameters as given, the creator, the
/// two tranche mints and the three bumps; the one field neither sets,
/// `created_at`, keeps its value.
pub proof fn lemma_created_config_records_inputs(
    ctx: CreateTranchesContext,
    input_data: CreateTrancheConfigInput,
    initial: TrancheConfig,
    tranche_config_bump: u8,
    senior_tranche_mint_bump: u8,
    junior_tranche_mint_bump: u8,
)
    ensures
        ({
            let c = created_config(
                ctx,
                input_data,
                initial,
                tranche_config_bump,
                senior_tranche_mint_bump,
                junior_tranche_mint_bump,
            );
            &&& c.quantity == input_data.quantity
            &&& c.capital_split == input_data.capital_split
            &&& c.interest_split == input_data.interest_split
            &&& c.mint_count == input_data.mint_count
            &&& c.start_date == input_data.start_date
            &&& c.end_date == input_data.end_date
            &&& c.create_serum == input_data.create_serum
            &&& c.can_mint_more == input_data.can_mint_more
            &&& c.authority == ctx.authority
            &&& c.senior_tranche_mint == ctx.senior_tranche_mint
            &&& c.junior_tranche_mint == ctx.junior_tranche_mint
            &&& c.tranche_config_bump == tranche_config_bump
            &&& c.senior_tranche_mint_bump == senior_tranche_mint_bump
            &&& c.junior_tranche_mint_bump == junior_tranche_mint_bump
            &&& c.created_at == initial.created_at
        }),
{
}

/// Creating a tranche makes nine requests, in this order: the creator's
/// deposit of the input's quantity into the tranche vault; the minting of
/// the input's senior and junior counts into the creator's two tranche
/// accounts; the allocation, paid by the creator and seeded by the junior
/// mint and vault, of the market, request queue, event queue, asks and bids;
/// and the opening of the market that trades the junior token against the
/// quote token with lots of 100 000 and 100, dust threshold 500 and vault
/// signer `nonce`.
pub proof fn lemma_create_tranche_requests(
    ctx: CreateTranchesContext,
    input_data: CreateTrancheConfigInput,
    initial: TrancheConfig,
    tranche_config_bump: u8,
    senior_tranche_mint_bump: u8,
    junior_tranche_mint_bump: u8,
    nonce: u64,
)
    ensures
        ({
            let c = created_config(
                ctx,
                input_data,
                initial,
                tranche_config_bump,
                senior_tranche_mint_bump,
                junior_tranche_mint_bump,
            );
            let a = create_tranche_actions(ctx, c, input_data.quantity, nonce);
            let alloc = |account: SerumAccount, address: Key|
                TrancheAction::AllocateSerumAccount {
                    account,
                    address,
                    payer: ctx.authority,
                    junior_tranche_mint: ctx.junior_tranche_mint,
                    junior_tranche_vault: ctx.junior_tranche_vault,
                };
            &&& a.len() == 9
            &&& a[0] == TrancheAction::Transfer {
                from: ctx.deposit_from_account,
                to: ctx.tranche_vault,
                authority: ctx.authority,
                amount: input_data.quantity,
            }
            &&& a[1] == TrancheAction::MintTo {
                mint: ctx.senior_tranche_mint,
                to: ctx.senior_tranche_vault,
                authority: ctx.authority,
                amount: input_data.mint_count[0],
            }
            &&& a[2] == TrancheAction::MintTo {
                mint: ctx.junior_tranche_mint,
                to: ctx.junior_tranche_vault,
                authority: ctx.authority,
                amount: input_data.mint_count[1],
            }
            &&& a[3] == alloc(SerumAccount::Market, ctx.market)
            &&& a[4] == alloc(SerumAccount::RequestQueue, ctx.request_queue)
            &&& a[5] == alloc(SerumAccount::EventQueue, ctx.event_queue)
            &&& a[6] == alloc(SerumAccount::Asks, ctx.asks)
            &&& a[7] == alloc(SerumAccount::Bids, ctx.bids)
            &&& a[8] == TrancheAction::InitializeMarket {
                dex_program: ctx.serum_dex,
                market: ctx.market,
                coin_mint: ctx.junior_tranche_mint,
                coin_vault: ctx.junior_tranche_vault,
                pc_mint: ctx.usdc_mint,
                pc_vault: ctx.usdc_vault,
                bids: ctx.bids,
                asks: ctx.asks,
                request_queue: ctx.request_queue,
                event_queue: ctx.event_queue,
                rent: ctx.rent,
                coin_lot_size: 100_000,
                pc_lot_size: 100,
                vault_signer_nonce: nonce,
                pc_dust_threshold: 500,
            }
        }),
{
}

fn allocate_action(ctx: &CreateTranchesContext, account: SerumAccount, address: Key) -> (action: TrancheAction)
    ensures
        action == allocate(*ctx, account, address),
{
    TrancheAction::AllocateSerumAccount {
        account,
        address,
        payer: ctx.authority,
        junior_tranche_mint: ctx.junior_tranche_mint,
        junior_tranche_vault: ctx.junior_tranche_vault,
    }
}

/// Creates a tranche: refuses invalid parameters with their error, and
/// otherwise returns the config account's new contents and the requests to
/// perform, in order.
pub fn create_tranche(
    ctx: &CreateTranchesContext,
    input_data: &CreateTrancheConfigInput,
    tranche_config: TrancheConfig,
    tranche_config_bump: u8,
    senior_tranche_mint_bump: u8,
    junior_tranche_mint_bump: u8,
) -> (result: Result<(TrancheConfig, Vec<TrancheAction>), ErrorCode>)
    ensures
        !input_data.spec_is_valid() ==> result == Err::<(TrancheConfig, Vec<TrancheAction>), ErrorCode>(
            ErrorCode::InvalidInput,
        ),
        input_data.spec_is_valid() ==> (result matches Ok((config, actions)) && config == created_config(
            *ctx,
            *input_data,
            tranche_config,
            tranche_config_bump,
            senior_tranche_mint_bump,
            junior_tranche_mint_bump,
        ) && actions@ == create_tranche_actions(
            *ctx,
            config,
            input_data.quantity,
            spec_vault_signer_nonce(ctx.market@, ctx.program_id@),
        )),
        result is Ok <==> (input_data.capital_split[0] + input_data.capital_split[1] == 10_000
            && input_data.interest_split[0] + input_data.interest_split[1] == 10_000
            && input_data.mint_count[0] != 0 && input_data.mint_count[1] != 0),
        result matches Ok((config, actions)) ==> {
            &&& config.quantity == input_data.quantity
            &&& config.mint_count == input_data.mint_count
            &&& config.authority == ctx.authority
            &&& actions@.len() == 9
            &&& actions@[0] == (TrancheAction::Transfer {
                from: ctx.deposit_from_account,
                to: ctx.tranche_vault,
                authority: ctx.authority,
                amount: input_data.quantity,
            })
        },
{
    if let Err(e) = input_data.is_valid() {
        return Err(e);
    }
    let mut config: TrancheConfig = tranche_config;
    input_data.create_tranche_config(&mut config);
    config.record_accounts(
        ctx.authority,
        ctx.senior_tranche_mint,
        ctx.junior_tranche_mint,
        tranche_config_bump,
        senior_tranche_mint_bump,
        junior_tranche_mint_bump,
    );

    let mut actions: Vec<TrancheAction> = Vec::new();
    actions.push(TrancheAction::Transfer {
        from: ctx.deposit_from_account,
        to: ctx.tranche_vault,
        authority: ctx.authority,
        amount: input_data.quantity,
    });
    actions.push(TrancheAction::MintTo {
        mint: ctx.senior_tranche_mint,
        to: ctx.senior_tranche_vault,
        authority: ctx.authority,
        amount: config.mint_count[0],
    });
    actions.push(TrancheAction::MintTo {
        mint: ctx.junior_tranche_mint,
        to: ctx.junior_tranche_vault,
        authority: ctx.authority,
        amount: config.mint_count[1],
    });
    actions.push(allocate_action(ctx, SerumAccount::Market, ctx.market));
    actions.push(allocate_action(ctx, SerumAccount::RequestQueue, ctx.request_queue));
    actions.push(allocate_action(ctx, SerumAccount::EventQueue, ctx.event_queue));
    actions.push(allocate_action(ctx, SerumAccount::Asks, ctx.asks));
    actions.push(allocate_action(ctx, SerumAccount::Bids, ctx.bids));

    let nonce: u64 = find_vault_signer_nonce(&ctx.market, &ctx.program_id);
    actions.push(TrancheAction::InitializeMarket {
        dex_program: ctx.serum_dex,
        market: ctx.market,
        coin_mint: ctx.junior_tranche_mint,
        coin_vault: ctx.junior_tranche_vault,
        pc_mint: ctx.usdc_mint,
        pc_vault: ctx.usdc_vault,
        bids: ctx.bids,
        asks: ctx.asks,
        request_queue: ctx.request_queue,
        event_queue: ctx.event_queue,
        rent: ctx.rent,
        coin_lot_size: COIN_LOT_SIZE,
        pc_lot_size: PC_LOT_SIZE,
        vault_signer_nonce: nonce,
        pc_dust_threshold: PC_DUST_THRESHOLD,
    });
    proof {
        assert(actions@ =~= create_tranche_actions(*ctx, config, input_data.quantity, nonce));
    }
    Ok((config, actions))
}

} // verus!
