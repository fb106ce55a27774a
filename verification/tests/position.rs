use star_honorary_fee_position::accounts::PoolAccount;
use star_honorary_fee_position::errors::ErrorCode;
use star_honorary_fee_position::initialize_position;
use star_honorary_fee_position::instructions::{InitializePosition, InitializePositionParams};
use star_honorary_fee_position::pubkey::Pubkey;
use star_honorary_fee_position::state::position::validate_quote_only_ticks;
use star_honorary_fee_position::state::PolicyState;

/// The tick of a price: the logarithm of the price to the base 1.0001.
fn price_to_tick(price: f64) -> i32 {
    (price.ln() / 1.0001f64.ln()).round() as i32
}

fn position_key(byte: u8) -> Pubkey {
    Pubkey::new_from_array([byte; 32])
}

fn position_accounts(current_tick: i32, quote_is_token_0: bool) -> InitializePosition {
    let quote_mint = position_key(3);
    let base_mint = position_key(4);
    InitializePosition {
        vault: position_key(1),
        policy: PolicyState {
            vault: position_key(1),
            creator_wallet: position_key(2),
            creator_quote_ata: position_key(5),
            quote_mint,
            investor_fee_share_bps: 5000,
            daily_cap_lamports: None,
            min_payout_lamports: 10_000,
            y0_total_allocation: 10_000_000,
            bump: 254,
        },
        pool_state: PoolAccount { key: position_key(6), current_tick },
        quote_mint,
        token_0_mint: if quote_is_token_0 { quote_mint } else { base_mint },
        token_1_mint: if quote_is_token_0 { base_mint } else { quote_mint },
        position_nft_mint: position_key(7),
        protocol_position: position_key(8),
        position_state_bump: 253,
    }
}

fn position_params(tick_lower: i32, tick_upper: i32) -> InitializePositionParams {
    InitializePositionParams {
        tick_lower,
        tick_upper,
        tick_array_lower_start_index: 0,
        tick_array_upper_start_index: 0,
    }
}

#[test]
fn test_quote_only_tick_validation() {
    let current_tick = 1000;
    let tick_lower = 1100;
    let tick_upper = 1200;
    let is_quote_token_0 = true;

    assert!(validate_quote_only_ticks(
        current_tick,
        tick_lower,
        tick_upper,
        is_quote_token_0
    ));

    let tick_lower = 800;
    let tick_upper = 900;

    assert!(!validate_quote_only_ticks(
        current_tick,
        tick_lower,
        tick_upper,
        is_quote_token_0
    ));

    let is_quote_token_0 = false;

    assert!(validate_quote_only_ticks(
        current_tick,
        tick_lower,
        tick_upper,
        is_quote_token_0
    ));

    let tick_lower = 1100;
    let tick_upper = 1200;

    assert!(!validate_quote_only_ticks(
        current_tick,
        tick_lower,
        tick_upper,
        is_quote_token_0
    ));
}

#[test]
fn test_validate_quote_only_ticks() {
    let current_tick = 1000;

    assert!(validate_quote_only_ticks(current_tick, 1100, 1200, true));
    assert!(!validate_quote_only_ticks(current_tick, 900, 1100, true));

    assert!(validate_quote_only_ticks(current_tick, 800, 900, false));
    assert!(!validate_quote_only_ticks(current_tick, 900, 1100, false));
}

#[test]
fn test_quote_only_validation_logic() {
    let current_tick = 1000;

    assert!(validate_quote_only_ticks(current_tick, 1100, 1200, true));
    assert!(!validate_quote_only_ticks(current_tick, 900, 1100, true));
    assert!(validate_quote_only_ticks(current_tick, 800, 900, false));
    assert!(!validate_quote_only_ticks(current_tick, 900, 1100, false));
}

#[test]
fn quote_only_fees_test_price_to_tick_conversions() {
    let price_1 = 1.0;
    let tick_1 = price_to_tick(price_1);
    assert!(tick_1.abs() < 10, "Price 1.0 should give tick near 0");

    let price_2 = 2.0;
    let tick_2 = price_to_tick(price_2);
    assert!(tick_2 > 6900 && tick_2 < 7000, "Price 2.0 should give tick ~6931");

    let price_half = 0.5;
    let tick_half = price_to_tick(price_half);
    assert!(tick_half > -7000 && tick_half < -6900, "Price 0.5 should give tick ~-6931");

    // A range between the prices 2 and 4 lies above the price 1, one between
    // the prices 1/4 and 1/2 below it.
    assert!(validate_quote_only_ticks(tick_1, tick_2, price_to_tick(4.0), true));
    assert!(validate_quote_only_ticks(tick_1, price_to_tick(0.25), tick_half, false));
    assert!(!validate_quote_only_ticks(tick_1, tick_half, tick_2, true));
    assert!(!validate_quote_only_ticks(tick_1, tick_half, tick_2, false));
}

#[test]
fn cp_amm_setup_test_price_to_tick_conversions() {
    let tick = price_to_tick(1.0);
    assert!(tick.abs() < 10);

    let tick = price_to_tick(2.0);
    assert!(tick > 0);

    let tick = price_to_tick(0.5);
    assert!(tick < 0);
}

#[test]
fn range_that_touches_the_current_tick_is_not_quote_only() {
    assert!(!validate_quote_only_ticks(1000, 1000, 1200, true));
    assert!(validate_quote_only_ticks(1000, 1001, 1200, true));
    assert!(!validate_quote_only_ticks(1000, 800, 1000, false));
    assert!(validate_quote_only_ticks(1000, 800, 999, false));
    assert!(validate_quote_only_ticks(i32::MIN, i32::MIN + 1, i32::MAX, true));
    assert!(validate_quote_only_ticks(i32::MAX, i32::MIN, i32::MAX - 1, false));
}

#[test]
fn position_above_the_price_is_created_for_the_first_token() {
    let ctx = position_accounts(1000, true);
    let created = initialize_position(&ctx, position_params(1100, 1200)).unwrap();
    let state = created.position_state;
    assert_eq!(state.vault, position_key(1));
    assert_eq!(state.pool_id, position_key(6));
    assert_eq!(state.position_nft_mint, position_key(7));
    assert_eq!(state.position_id, position_key(8));
    assert_eq!(state.tick_lower, 1100);
    assert_eq!(state.tick_upper, 1200);
    assert_eq!(state.liquidity, 1);
    assert!(state.is_quote_token_0);
    assert_eq!(state.bump, 253);

    let event = created.event;
    assert_eq!(event.vault, position_key(1));
    assert_eq!(event.pool, position_key(6));
    assert_eq!(event.position_id, position_key(8));
    assert_eq!(event.tick_lower, 1100);
    assert_eq!(event.tick_upper, 1200);
    assert!(event.is_quote_token_0);
    assert_eq!(event.liquidity, 1);
}

#[test]
fn position_below_the_price_is_created_for_the_second_token() {
    let ctx = position_accounts(1000, false);
    let created = initialize_position(&ctx, position_params(800, 900)).unwrap();
    assert!(!created.position_state.is_quote_token_0);
    assert!(!created.event.is_quote_token_0);
    assert_eq!(created.position_state.tick_lower, 800);
    assert_eq!(created.position_state.tick_upper, 900);
}

#[test]
fn position_that_could_earn_base_fees_is_refused() {
    let first = position_accounts(1000, true);
    assert_eq!(
        initialize_position(&first, position_params(900, 1100)).err(),
        Some(ErrorCode::PositionWouldAccrueBaseFees)
    );
    assert_eq!(
        initialize_position(&first, position_params(800, 900)).err(),
        Some(ErrorCode::PositionWouldAccrueBaseFees)
    );
    let second = position_accounts(1000, false);
    assert_eq!(
        initialize_position(&second, position_params(900, 1100)).err(),
        Some(ErrorCode::PositionWouldAccrueBaseFees)
    );
    assert_eq!(
        initialize_position(&second, position_params(1100, 1200)).err(),
        Some(ErrorCode::PositionWouldAccrueBaseFees)
    );
}

#[test]
fn empty_range_is_refused() {
    let ctx = position_accounts(1000, true);
    assert_eq!(
        initialize_position(&ctx, position_params(1200, 1200)).err(),
        Some(ErrorCode::InvalidTickRangeForQuoteOnly)
    );
    assert_eq!(
        initialize_position(&ctx, position_params(1300, 1200)).err(),
        Some(ErrorCode::InvalidTickRangeForQuoteOnly)
    );
}

#[test]
fn quote_mint_that_is_not_in_the_pool_is_refused() {
    let mut ctx = position_accounts(1000, true);
    ctx.token_0_mint = position_key(40);
    assert_eq!(
        initialize_position(&ctx, position_params(1100, 1200)).err(),
        Some(ErrorCode::QuoteMintNotInPool)
    );
}

#[test]
fn quote_mint_that_the_policy_does_not_name_is_refused() {
    let mut ctx = position_accounts(1000, true);
    ctx.policy.quote_mint = position_key(41);
    assert_eq!(
        initialize_position(&ctx, position_params(1100, 1200)).err(),
        Some(ErrorCode::QuoteMintNotInPool)
    );
}

#[test]
fn policy_of_another_vault_is_refused() {
    let mut ctx = position_accounts(1000, true);
    ctx.policy.vault = position_key(42);
    assert_eq!(ctx.check_constraints(), Err(ErrorCode::InvalidPageParameters));
    assert_eq!(
        initialize_position(&ctx, position_params(1100, 1200)).err(),
        Some(ErrorCode::InvalidPageParameters)
    );
    // The constraint comes before the rules.
    assert_eq!(
        initialize_position(&ctx, position_params(1300, 1200)).err(),
        Some(ErrorCode::InvalidPageParameters)
    );
}

#[test]
fn handler_of_the_position_leaves_the_constraints_to_the_entry_point() {
    let mut ctx = position_accounts(1000, true);
    ctx.policy.vault = position_key(42);
    let created = star_honorary_fee_position::instructions::initialize_position::handler(
        &ctx,
        position_params(1100, 1200),
    );
    assert!(created.is_ok());
}

#[test]
fn pool_where_both_tokens_are_the_quote_token_counts_as_first_token() {
    let mut ctx = position_accounts(1000, true);
    ctx.token_1_mint = ctx.quote_mint;
    let created = initialize_position(&ctx, position_params(1100, 1200)).unwrap();
    assert!(created.position_state.is_quote_token_0);
}
