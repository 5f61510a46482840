use anchor_lang::prelude::Pubkey;
use vyper::action::{next_step, tranche_config_seeds, RequestStep, SerumAccount, TrancheAction};
use vyper::error::ErrorCode;
use vyper::redeem::{ratio_check_required, redeem, redeemable_amounts, RedeemContext};
use vyper::serum::{find_vault_signer_nonce, next_vault_signer_nonce};
use vyper::state::TrancheConfig;
use vyper::tranche::{create_tranche, CreateTrancheConfigInput, CreateTranchesContext};

fn key(b: u8) -> [u8; 32] {
    [b; 32]
}

fn zero_config() -> TrancheConfig {
    TrancheConfig {
        authority: [0; 32],
        quantity: 0,
        capital_split: [0; 2],
        interest_split: [0; 2],
        mint_count: [0; 2],
        junior_tranche_mint: [0; 32],
        senior_tranche_mint: [0; 32],
        created_at: 0,
        start_date: 0,
        end_date: 0,
        create_serum: false,
        can_mint_more: false,
        tranche_config_bump: 0,
        senior_tranche_mint_bump: 0,
        junior_tranche_mint_bump: 0,
    }
}

fn expected_nonce(market: &[u8; 32], program_id: &[u8; 32]) -> u64 {
    let market = Pubkey::new_from_array(*market);
    let program_id = Pubkey::new_from_array(*program_id);
    let mut nonce: u64 = 0;
    for i in 1u64..100 {
        let bytes = i.to_le_bytes();
        if Pubkey::create_program_address(&[market.as_ref(), &bytes], &program_id).is_ok() {
            nonce = i;
        }
    }
    nonce
}

#[test]
fn config_len_counts_discriminator_and_fields() {
    assert_eq!(TrancheConfig::LEN, 173);
}

#[test]
fn record_accounts_sets_only_the_accounts_and_bumps() {
    let mut config = zero_config();
    config.quantity = 7;
    config.end_date = 9;
    config.record_accounts(key(1), key(2), key(3), 4, 5, 6);
    assert_eq!(config.authority, key(1));
    assert_eq!(config.senior_tranche_mint, key(2));
    assert_eq!(config.junior_tranche_mint, key(3));
    assert_eq!(config.tranche_config_bump, 4);
    assert_eq!(config.senior_tranche_mint_bump, 5);
    assert_eq!(config.junior_tranche_mint_bump, 6);
    assert_eq!(config.quantity, 7);
    assert_eq!(config.end_date, 9);
}

#[test]
fn serum_accounts_have_their_sizes_and_tags() {
    assert_eq!(SerumAccount::Market.space(), 48);
    assert_eq!(SerumAccount::RequestQueue.space(), 640);
    assert_eq!(SerumAccount::EventQueue.space(), 65536);
    assert_eq!(SerumAccount::Asks.space(), 1 << 16);
    assert_eq!(SerumAccount::Bids.space(), 1 << 16);
    assert_eq!(SerumAccount::Market.tag(), b"market".to_vec());
    assert_eq!(SerumAccount::RequestQueue.tag(), b"request_queue".to_vec());
    assert_eq!(SerumAccount::EventQueue.tag(), b"event_queue".to_vec());
    assert_eq!(SerumAccount::Asks.tag(), b"asks".to_vec());
    assert_eq!(SerumAccount::Bids.tag(), b"bids".to_vec());
}

#[test]
fn serum_account_seeds_are_mint_vault_and_tag() {
    let seeds = SerumAccount::EventQueue.seeds(&key(8), &key(9));
    assert_eq!(seeds, vec![key(8).to_vec(), key(9).to_vec(), b"event_queue".to_vec()]);
}

#[test]
fn tranche_config_seeds_end_with_the_bump() {
    let seeds = tranche_config_seeds(&key(1), &key(2), &key(3), 254);
    assert_eq!(seeds, vec![key(1).to_vec(), key(2).to_vec(), key(3).to_vec(), vec![254]]);
}

#[test]
fn nonce_step_keeps_the_last_success() {
    assert_eq!(next_vault_signer_nonce(3, 7, &Some(key(1))), 7);
    assert_eq!(next_vault_signer_nonce(3, 7, &None), 3);
}

#[test]
fn nonce_search_matches_program_address_derivation() {
    let program_id = key(42);
    // look for a market whose last working nonce is not the last one tried
    let mut found = false;
    for b in 0u8..=255 {
        let market = key(b);
        let expected = expected_nonce(&market, &program_id);
        assert_eq!(find_vault_signer_nonce(&market, &program_id), expected);
        assert!(expected < 100);
        if expected != 99 {
            found = true;
            break;
        }
    }
    assert!(found);
}

fn create_ctx() -> CreateTranchesContext {
    CreateTranchesContext {
        program_id: key(100),
        authority: key(1),
        deposit_from_account: key(2),
        tranche_vault: key(3),
        senior_tranche_mint: key(4),
        senior_tranche_vault: key(5),
        junior_tranche_mint: key(6),
        junior_tranche_vault: key(7),
        market: key(8),
        request_queue: key(9),
        event_queue: key(10),
        asks: key(11),
        bids: key(12),
        usdc_mint: key(13),
        usdc_vault: key(14),
        serum_dex: key(15),
        rent: key(16),
    }
}

fn valid_input() -> CreateTrancheConfigInput {
    CreateTrancheConfigInput {
        quantity: 1_000,
        capital_split: [8_000, 2_000],
        interest_split: [3_000, 7_000],
        mint_count: [10, 20],
        start_date: 11,
        end_date: 22,
        create_serum: true,
        can_mint_more: false,
    }
}

#[test]
fn create_tranche_fills_config_and_plans_deposit_mints_and_market() {
    let ctx = create_ctx();
    let input = valid_input();
    let (config, actions) = create_tranche(&ctx, &input, zero_config(), 250, 251, 252).unwrap();
    assert_eq!(config.quantity, 1_000);
    assert_eq!(config.capital_split, [8_000, 2_000]);
    assert_eq!(config.interest_split, [3_000, 7_000]);
    assert_eq!(config.mint_count, [10, 20]);
    assert_eq!(config.start_date, 11);
    assert_eq!(config.end_date, 22);
    assert!(config.create_serum);
    assert!(!config.can_mint_more);
    assert_eq!(config.created_at, 0);
    assert_eq!(config.authority, key(1));
    assert_eq!(config.senior_tranche_mint, key(4));
    assert_eq!(config.junior_tranche_mint, key(6));
    assert_eq!(
        (config.tranche_config_bump, config.senior_tranche_mint_bump, config.junior_tranche_mint_bump),
        (250, 251, 252)
    );
    let alloc = |account, address| TrancheAction::AllocateSerumAccount {
        account,
        address,
        payer: key(1),
        junior_tranche_mint: key(6),
        junior_tranche_vault: key(7),
    };
    let expected = vec![
        TrancheAction::Transfer { from: key(2), to: key(3), authority: key(1), amount: 1_000 },
        TrancheAction::MintTo { mint: key(4), to: key(5), authority: key(1), amount: 10 },
        TrancheAction::MintTo { mint: key(6), to: key(7), authority: key(1), amount: 20 },
        alloc(SerumAccount::Market, key(8)),
        alloc(SerumAccount::RequestQueue, key(9)),
        alloc(SerumAccount::EventQueue, key(10)),
        alloc(SerumAccount::Asks, key(11)),
        alloc(SerumAccount::Bids, key(12)),
        TrancheAction::InitializeMarket {
            dex_program: key(15),
            market: key(8),
            coin_mint: key(6),
            coin_vault: key(7),
            pc_mint: key(13),
            pc_vault: key(14),
            bids: key(12),
            asks: key(11),
            request_queue: key(9),
            event_queue: key(10),
            rent: key(16),
            coin_lot_size: 100_000,
            pc_lot_size: 100,
            vault_signer_nonce: expected_nonce(&key(8), &key(100)),
            pc_dust_threshold: 500,
        },
    ];
    assert_eq!(actions, expected);
}

#[test]
fn ratio_check_applies_only_before_the_end_date() {
    assert!(ratio_check_required(100, 99));
    assert!(!ratio_check_required(100, 100));
    assert!(!ratio_check_required(100, 101));
    // a negative timestamp reads as a huge unsigned one
    assert!(!ratio_check_required(100, -1));
    assert!(ratio_check_required(u64::MAX, -2));
}

#[test]
fn redeemable_amounts_split_capital_and_interest() {
    assert_eq!(redeemable_amounts(1_500, 1_000), [1_000, 500]);
    assert_eq!(redeemable_amounts(1_000, 1_000), [1_000, 0]);
    assert_eq!(redeemable_amounts(600, 1_000), [600, 0]);
    assert_eq!(redeemable_amounts(0, 0), [0, 0]);
    assert_eq!(redeemable_amounts(u64::MAX, 0), [0, u64::MAX]);
}

fn redeem_ctx() -> RedeemContext {
    let mut config = zero_config();
    config.tranche_config_bump = 253;
    RedeemContext {
        authority: key(1),
        tranche_config_address: key(20),
        tranche_config: config,
        deposit_mint: key(21),
        tranche_vault: key(3),
        tranche_vault_amount: 1_500,
        deposit_to_account: key(2),
        senior_tranche_mint: key(4),
        senior_tranche_vault: key(5),
        senior_tranche_vault_amount: 10,
        junior_tranche_mint: key(6),
        junior_tranche_vault: key(7),
        junior_tranche_vault_amount: 20,
        unix_timestamp: 0,
    }
}

#[test]
fn redeem_pays_out_then_burns_both_balances() {
    let ctx = redeem_ctx();
    let actions = redeem(&ctx, Ok(1_234)).unwrap();
    assert_eq!(
        actions,
        vec![
            TrancheAction::TransferFromVault {
                from: key(3),
                to: key(2),
                authority: key(20),
                amount: 1_234,
                deposit_mint: key(21),
                senior_tranche_mint: key(4),
                junior_tranche_mint: key(6),
                bump: 253,
            },
            TrancheAction::Burn { mint: key(4), from: key(5), authority: key(1), amount: 10 },
            TrancheAction::Burn { mint: key(6), from: key(7), authority: key(1), amount: 20 },
        ]
    );
}

#[test]
fn redeem_passes_a_refusal_through() {
    let ctx = redeem_ctx();
    assert_eq!(redeem(&ctx, Err(ErrorCode::InvalidTrancheAmount)), Err(ErrorCode::InvalidTrancheAmount));
}

#[test]
fn valid_input_is_accepted() {
    assert_eq!(valid_input().is_valid(), Ok(()));
}

#[test]
fn input_with_uneven_splits_or_no_mints_is_refused() {
    let mut input = valid_input();
    input.capital_split = [8_000, 2_001];
    assert_eq!(input.is_valid(), Err(ErrorCode::InvalidInput));
    let mut input = valid_input();
    input.interest_split = [3_000, 6_999];
    assert_eq!(input.is_valid(), Err(ErrorCode::InvalidInput));
    let mut input = valid_input();
    input.mint_count = [0, 20];
    assert_eq!(input.is_valid(), Err(ErrorCode::InvalidInput));
    let mut input = valid_input();
    input.mint_count = [10, 0];
    assert_eq!(input.is_valid(), Err(ErrorCode::InvalidInput));
    let mut input = valid_input();
    input.capital_split = [u32::MAX, 10_001];
    assert_eq!(input.is_valid(), Err(ErrorCode::InvalidInput));
}

#[test]
fn create_tranche_refuses_invalid_input_with_no_requests() {
    let mut input = valid_input();
    input.interest_split = [5_000, 4_000];
    assert_eq!(
        create_tranche(&create_ctx(), &input, zero_config(), 1, 2, 3),
        Err(ErrorCode::InvalidInput)
    );
}

fn run(requests: &Vec<TrancheAction>, outcomes: &[Result<(), u32>]) -> (usize, Result<(), u32>) {
    let mut performed: usize = 0;
    let mut last: Result<(), u32> = Ok(());
    loop {
        match next_step(requests, performed, last) {
            RequestStep::Perform(action) => {
                assert_eq!(action, requests[performed]);
                last = outcomes[performed];
                performed += 1;
            }
            RequestStep::Finish(result) => return (performed, result),
        }
    }
}

#[test]
fn requests_stop_at_the_first_failure() {
    let (_, requests) = create_tranche(&create_ctx(), &valid_input(), zero_config(), 1, 2, 3).unwrap();
    let mut outcomes = vec![Ok(()); requests.len()];
    assert_eq!(run(&requests, &outcomes), (9, Ok(())));
    outcomes[0] = Err(7);
    outcomes[4] = Err(8);
    assert_eq!(run(&requests, &outcomes), (1, Err(7)));
    outcomes[0] = Ok(());
    assert_eq!(run(&requests, &outcomes), (5, Err(8)));
}
