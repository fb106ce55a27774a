use star_honorary_fee_position::accounts::TokenAccount;
use star_honorary_fee_position::errors::ErrorCode;
use star_honorary_fee_position::initialize_policy;
use star_honorary_fee_position::instructions::{InitializePolicy, InitializePolicyParams};
use star_honorary_fee_position::pubkey::Pubkey;

fn policy_key(byte: u8) -> Pubkey {
    Pubkey::new_from_array([byte; 32])
}

fn policy_accounts() -> InitializePolicy {
    InitializePolicy {
        creator: policy_key(2),
        vault: policy_key(1),
        quote_mint: policy_key(3),
        creator_quote_ata: TokenAccount {
            key: policy_key(5),
            mint: policy_key(3),
            owner: policy_key(2),
            amount: 0,
        },
        policy_bump: 255,
        progress_bump: 254,
    }
}

fn policy_params() -> InitializePolicyParams {
    InitializePolicyParams {
        investor_fee_share_bps: 5000,
        daily_cap_lamports: Some(1_000_000_000),
        min_payout_lamports: 10_000,
        y0_total_allocation: 10_000_000_000,
    }
}

#[test]
fn test_initialize_policy() {
    let ctx = policy_accounts();
    let params = policy_params();

    let result = initialize_policy(&ctx, params);
    println!("Initialize policy result: {:?}", result);

    let created = result.unwrap();
    let policy = created.policy;
    assert_eq!(policy.vault, policy_key(1));
    assert_eq!(policy.creator_wallet, policy_key(2));
    assert_eq!(policy.creator_quote_ata, policy_key(5));
    assert_eq!(policy.quote_mint, policy_key(3));
    assert_eq!(policy.investor_fee_share_bps, 5000);
    assert_eq!(policy.daily_cap_lamports, Some(1_000_000_000));
    assert_eq!(policy.min_payout_lamports, 10_000);
    assert_eq!(policy.y0_total_allocation, 10_000_000_000);
    assert_eq!(policy.bump, 255);

    let progress = created.progress;
    assert_eq!(progress.vault, policy_key(1));
    assert_eq!(progress.last_distribution_ts, 0);
    assert_eq!(progress.current_day_ts, 0);
    assert_eq!(progress.daily_distributed, 0);
    assert_eq!(progress.carry_over_dust, 0);
    assert_eq!(progress.pagination_cursor, 0);
    assert!(progress.day_complete);
    assert_eq!(progress.total_claimed_lifetime, 0);
    assert_eq!(progress.bump, 254);

    let event = created.event;
    assert_eq!(event.vault, policy_key(1));
    assert_eq!(event.creator_wallet, policy_key(2));
    assert_eq!(event.quote_mint, policy_key(3));
    assert_eq!(event.investor_fee_share_bps, 5000);
    assert_eq!(event.daily_cap_lamports, Some(1_000_000_000));
    assert_eq!(event.y0_total_allocation, 10_000_000_000);
}

#[test]
fn share_of_more_than_everything_is_rejected() {
    let ctx = policy_accounts();
    let mut params = policy_params();
    params.investor_fee_share_bps = 10001;
    assert_eq!(initialize_policy(&ctx, params).err(), Some(ErrorCode::InvalidFeeShareBps));
    params.investor_fee_share_bps = u16::MAX;
    assert_eq!(initialize_policy(&ctx, params).err(), Some(ErrorCode::InvalidFeeShareBps));
}

#[test]
fn share_of_everything_and_of_nothing_are_accepted() {
    let ctx = policy_accounts();
    let mut params = policy_params();
    params.investor_fee_share_bps = 10000;
    assert_eq!(initialize_policy(&ctx, params).unwrap().policy.investor_fee_share_bps, 10000);
    params.investor_fee_share_bps = 0;
    assert_eq!(initialize_policy(&ctx, params).unwrap().policy.investor_fee_share_bps, 0);
}

#[test]
fn allocation_of_nothing_is_rejected() {
    let ctx = policy_accounts();
    let mut params = policy_params();
    params.y0_total_allocation = 0;
    assert_eq!(initialize_policy(&ctx, params).err(), Some(ErrorCode::InvalidY0Allocation));
}

#[test]
fn share_is_checked_before_the_allocation() {
    let ctx = policy_accounts();
    let mut params = policy_params();
    params.investor_fee_share_bps = 10001;
    params.y0_total_allocation = 0;
    assert_eq!(initialize_policy(&ctx, params).err(), Some(ErrorCode::InvalidFeeShareBps));
}

#[test]
fn policy_without_a_daily_cap_is_accepted() {
    let ctx = policy_accounts();
    let mut params = policy_params();
    params.daily_cap_lamports = None;
    let created = initialize_policy(&ctx, params).unwrap();
    assert_eq!(created.policy.daily_cap_lamports, None);
    assert_eq!(created.event.daily_cap_lamports, None);
}

#[test]
fn quote_account_of_somebody_else_is_refused() {
    let mut ctx = policy_accounts();
    ctx.creator_quote_ata.owner = policy_key(9);
    assert_eq!(ctx.check_constraints(), Err(ErrorCode::InvalidPageParameters));
    assert_eq!(
        initialize_policy(&ctx, policy_params()).err(),
        Some(ErrorCode::InvalidPageParameters)
    );
}

#[test]
fn quote_account_of_another_token_is_refused() {
    let mut ctx = policy_accounts();
    ctx.creator_quote_ata.mint = policy_key(9);
    assert_eq!(ctx.check_constraints(), Err(ErrorCode::QuoteMintNotInPool));
    assert_eq!(
        initialize_policy(&ctx, policy_params()).err(),
        Some(ErrorCode::QuoteMintNotInPool)
    );
}

#[test]
fn constraints_on_the_accounts_come_before_the_rules() {
    let mut ctx = policy_accounts();
    ctx.creator_quote_ata.owner = policy_key(9);
    ctx.creator_quote_ata.mint = policy_key(9);
    let mut params = policy_params();
    params.y0_total_allocation = 0;
    assert_eq!(initialize_policy(&ctx, params).err(), Some(ErrorCode::InvalidPageParameters));
}

#[test]
fn handler_of_the_policy_leaves_the_constraints_to_the_entry_point() {
    let mut ctx = policy_accounts();
    ctx.creator_quote_ata.owner = policy_key(9);
    assert_eq!(ctx.check_constraints(), Err(ErrorCode::InvalidPageParameters));
    let created = star_honorary_fee_position::instructions::initialize_policy::handler(
        &ctx,
        policy_params(),
    );
    assert!(created.is_ok());
}
