use star_honorary_fee_position::distribution::{
    apply_daily_cap, calculate_eligible_share_bps, calculate_f_locked_bps,
    calculate_investor_fee, calculate_pro_rata_share, distribute_page, Payout,
};
use star_honorary_fee_position::errors::ErrorCode;

#[test]
fn test_partial_vesting_calculation() {
    let y0 = 10_000_000u64;

    let locked_amount = 6_000_000u64;
    let f_locked_bps = calculate_f_locked_bps(locked_amount, y0).unwrap();

    assert_eq!(f_locked_bps, 6000, "60% locked should give 6000 bps");

    let policy_share = 5000u16;
    let eligible_share = calculate_eligible_share_bps(policy_share, f_locked_bps);

    assert_eq!(eligible_share, 5000, "Should use full policy share");

    let policy_share = 7000u16;
    let eligible_share = calculate_eligible_share_bps(policy_share, f_locked_bps);

    assert_eq!(eligible_share, 6000, "Should cap at f_locked");
}

#[test]
fn test_daily_cap_enforcement() {
    let daily_cap = 1_000_000u64;
    let already_distributed = 700_000u64;
    let remaining_cap = apply_daily_cap(u64::MAX, Some(daily_cap), already_distributed);

    assert_eq!(remaining_cap, 300_000);

    let desired_distribution = 500_000u64;
    let actual_distribution =
        apply_daily_cap(desired_distribution, Some(daily_cap), already_distributed);

    assert_eq!(actual_distribution, 300_000, "Should be capped at remaining");
}

#[test]
fn edge_cases_test_pro_rata_distribution() {
    let total_fees = 1_000_000u64;
    let locked_total = 5_000_000u64;

    let investor1_locked = 2_000_000u64;
    let investor1_share =
        calculate_pro_rata_share(total_fees, investor1_locked, locked_total).unwrap();
    assert_eq!(investor1_share, 400_000);

    let investor2_locked = 3_000_000u64;
    let investor2_share =
        calculate_pro_rata_share(total_fees, investor2_locked, locked_total).unwrap();
    assert_eq!(investor2_share, 600_000);

    assert_eq!(investor1_share + investor2_share, total_fees);
}

#[test]
fn integration_test_pro_rata_distribution() {
    let total_investor_fees = 1_000_000u64;
    let locked_amounts = vec![3_000_000u64, 2_000_000, 5_000_000];
    let locked_total: u64 = locked_amounts.iter().sum();

    assert_eq!(locked_total, 10_000_000);

    let page = distribute_page(total_investor_fees, &locked_amounts, locked_total, 0, 0).unwrap();
    let distributions: Vec<u64> = page.payouts.iter().map(|payout| payout.amount).collect();

    assert_eq!(distributions.len(), 3);
    assert_eq!(distributions[0], 300_000);
    assert_eq!(distributions[1], 200_000);
    assert_eq!(distributions[2], 500_000);

    let total_distributed: u64 = distributions.iter().sum();
    assert_eq!(total_distributed, total_investor_fees);
    assert_eq!(page.total_distributed, total_investor_fees);
    assert_eq!(page.dust_accumulated, 0);
}

#[test]
fn test_distribution_math() {
    let total_fees = 1_000_000u64;
    let investor_fee_share_bps = 5000u16;
    let y0 = 10_000_000u64;
    let locked_total = 6_000_000u64;

    let f_locked_bps = calculate_f_locked_bps(locked_total, y0).unwrap();
    assert_eq!(f_locked_bps, 6000);

    let eligible_share_bps = calculate_eligible_share_bps(investor_fee_share_bps, f_locked_bps);
    assert_eq!(eligible_share_bps, 5000);

    let investor_portion = calculate_investor_fee(total_fees, eligible_share_bps).unwrap();
    assert_eq!(investor_portion, 500_000);

    let creator_portion = total_fees - investor_portion;
    assert_eq!(creator_portion, 500_000);
}

#[test]
fn test_dust_accumulation() {
    let min_payout = 10000u64;

    // A fee as large as the locked total gives each investor a share as
    // large as the locked amount.
    let small_amounts = vec![5000u64, 3000, 2000, 4000, 6000];
    let locked_total: u64 = small_amounts.iter().sum();
    let page = distribute_page(locked_total, &small_amounts, locked_total, min_payout, 0).unwrap();
    let total_dust = page.dust_accumulated;

    assert_eq!(total_dust, 20000, "Total dust should accumulate");

    for amount in &small_amounts {
        let share = calculate_pro_rata_share(locked_total, *amount, locked_total).unwrap();
        assert_eq!(share, *amount);
        assert!(share < min_payout, "Each amount should be below threshold");
    }
    assert!(page.payouts.is_empty());
    assert_eq!(page.total_distributed, 0);
}

#[test]
fn locked_fraction_is_capped_at_all_of_the_allocation() {
    assert_eq!(calculate_f_locked_bps(10_000_000, 10_000_000), Ok(10000));
    assert_eq!(calculate_f_locked_bps(25_000_000, 10_000_000), Ok(10000));
    assert_eq!(calculate_f_locked_bps(9_999_999, 10_000_000), Ok(9999));
    assert_eq!(calculate_f_locked_bps(0, 10_000_000), Ok(0));
}

#[test]
fn locked_fraction_is_rounded_down() {
    // 1 * 10000 / 3 = 3333.33..
    assert_eq!(calculate_f_locked_bps(1, 3), Ok(3333));
    assert_eq!(calculate_f_locked_bps(999, 10_000_000), Ok(0));
    assert_eq!(calculate_f_locked_bps(1000, 10_000_000), Ok(1));
}

#[test]
fn locked_fraction_without_an_allocation_is_nothing() {
    assert_eq!(calculate_f_locked_bps(5, 0), Ok(0));
    assert_eq!(calculate_f_locked_bps(u64::MAX, 0), Ok(0));
}

#[test]
fn locked_fraction_overflows_where_the_scaled_total_does() {
    let largest = u64::MAX / 10000;
    assert_eq!(calculate_f_locked_bps(largest, largest), Ok(10000));
    assert_eq!(calculate_f_locked_bps(largest, u64::MAX), Ok(0));
    assert_eq!(calculate_f_locked_bps(largest + 1, u64::MAX), Err(ErrorCode::MathOverflow));
    assert_eq!(calculate_f_locked_bps(u64::MAX, 1), Err(ErrorCode::MathOverflow));
}

#[test]
fn eligible_share_grows_with_the_locked_total_up_to_the_policy_share() {
    let y0 = 10_000_000u64;
    let policy_share = 5000u16;
    let mut last = 0u16;
    for locked_total in [0u64, 1, 999, 1000, 2_500_000, 4_999_999, 5_000_000, 7_000_000, y0, 3 * y0] {
        let f_locked = calculate_f_locked_bps(locked_total, y0).unwrap();
        let eligible = calculate_eligible_share_bps(policy_share, f_locked);
        assert!(eligible >= last);
        assert!(eligible <= policy_share);
        last = eligible;
    }
    assert_eq!(last, policy_share);
}

#[test]
fn investor_fee_is_rounded_down() {
    assert_eq!(calculate_investor_fee(1_000_000, 5000), Ok(500_000));
    assert_eq!(calculate_investor_fee(999, 3333), Ok(332));
    assert_eq!(calculate_investor_fee(3, 3333), Ok(0));
    assert_eq!(calculate_investor_fee(1_000_000, 0), Ok(0));
    assert_eq!(calculate_investor_fee(1_000_000, 10000), Ok(1_000_000));
}

#[test]
fn investor_fee_overflows_where_the_scaled_amount_does() {
    let largest = u64::MAX / 10000;
    assert_eq!(calculate_investor_fee(largest, 10000), Ok(largest));
    assert_eq!(calculate_investor_fee(largest + 1, 10000), Err(ErrorCode::MathOverflow));
    assert_eq!(calculate_investor_fee(u64::MAX, 1), Ok(u64::MAX / 10000));
    assert_eq!(calculate_investor_fee(u64::MAX, 0), Ok(0));
}

#[test]
fn daily_cap_leaves_the_fee_alone_where_there_is_room() {
    assert_eq!(apply_daily_cap(500_000, None, 700_000), 500_000);
    assert_eq!(apply_daily_cap(500_000, None, u64::MAX), 500_000);
    assert_eq!(apply_daily_cap(300_000, Some(1_000_000), 700_000), 300_000);
    assert_eq!(apply_daily_cap(299_999, Some(1_000_000), 700_000), 299_999);
}

#[test]
fn daily_cap_that_is_used_up_leaves_nothing() {
    assert_eq!(apply_daily_cap(500_000, Some(1_000_000), 1_000_000), 0);
    assert_eq!(apply_daily_cap(500_000, Some(1_000_000), 2_000_000), 0);
    assert_eq!(apply_daily_cap(500_000, Some(0), 0), 0);
}

#[test]
fn share_is_rounded_down() {
    assert_eq!(calculate_pro_rata_share(10, 1, 3), Ok(3));
    assert_eq!(calculate_pro_rata_share(10, 2, 3), Ok(6));
    assert_eq!(calculate_pro_rata_share(1, 1, 2), Ok(0));
}

#[test]
fn investor_without_locked_tokens_has_no_share() {
    assert_eq!(calculate_pro_rata_share(1_000_000, 0, 5_000_000), Ok(0));
    assert_eq!(calculate_pro_rata_share(1_000_000, 5, 0), Ok(0));
    assert_eq!(calculate_pro_rata_share(u64::MAX, 0, 1), Ok(0));
    assert_eq!(calculate_pro_rata_share(u64::MAX, u64::MAX, 0), Ok(0));
}

#[test]
fn share_overflows_where_the_product_does() {
    assert_eq!(calculate_pro_rata_share(1 << 32, 1 << 31, 1 << 40), Ok(1 << 23));
    assert_eq!(calculate_pro_rata_share(1 << 32, 1 << 32, 1 << 40), Err(ErrorCode::MathOverflow));
    assert_eq!(calculate_pro_rata_share(u64::MAX, 2, 4), Err(ErrorCode::MathOverflow));
}

#[test]
fn page_pays_shares_that_reach_the_minimum_and_withholds_the_others() {
    let locks = vec![3_000_000u64, 0, 20_000, 5_000_000, 1];
    let locked_total: u64 = locks.iter().sum();
    assert_eq!(locked_total, 8_020_001);
    let page = distribute_page(1_000_000, &locks, locked_total, 10_000, 700).unwrap();
    // shares: 374064, -, 2493, 623441, 0
    assert_eq!(
        page.payouts,
        vec![
            Payout { index: 0, amount: 374_064, locked_amount: 3_000_000 },
            Payout { index: 3, amount: 623_441, locked_amount: 5_000_000 },
        ]
    );
    assert_eq!(page.total_distributed, 997_505);
    assert_eq!(page.dust_accumulated, 700 + 2_493);
}

#[test]
fn page_with_no_minimum_pays_every_investor_with_locked_tokens() {
    let locks = vec![1u64, 0, 1_000_000];
    let page = distribute_page(10, &locks, 1_000_001, 0, 5).unwrap();
    assert_eq!(
        page.payouts,
        vec![
            Payout { index: 0, amount: 0, locked_amount: 1 },
            Payout { index: 2, amount: 9, locked_amount: 1_000_000 },
        ]
    );
    assert_eq!(page.total_distributed, 9);
    assert_eq!(page.dust_accumulated, 5);
}

#[test]
fn page_without_locked_tokens_pays_nobody() {
    let locks = vec![0u64, 0, 0];
    let page = distribute_page(1_000_000, &locks, 0, 0, 42).unwrap();
    assert!(page.payouts.is_empty());
    assert_eq!(page.total_distributed, 0);
    assert_eq!(page.dust_accumulated, 42);

    let empty: Vec<u64> = Vec::new();
    let page = distribute_page(1_000_000, &empty, 0, 0, 42).unwrap();
    assert!(page.payouts.is_empty());
    assert_eq!(page.total_distributed, 0);
    assert_eq!(page.dust_accumulated, 42);
}

#[test]
fn shares_of_a_page_never_exceed_the_fee() {
    let locks = vec![1u64, 1, 1];
    let page = distribute_page(10, &locks, 3, 0, 0).unwrap();
    assert_eq!(page.total_distributed, 9);
    let page = distribute_page(10, &locks, 3, 4, 0).unwrap();
    assert_eq!(page.total_distributed, 0);
    assert_eq!(page.dust_accumulated, 9);
}

#[test]
fn shares_without_remainders_add_up_to_the_fee() {
    let locks = vec![1u64, 2, 3, 4];
    let page = distribute_page(1000, &locks, 10, 250, 0).unwrap();
    // shares: 100, 200, 300, 400
    assert_eq!(page.total_distributed, 700);
    assert_eq!(page.dust_accumulated, 300);
    assert_eq!(page.total_distributed + page.dust_accumulated, 1000);
}

#[test]
fn page_fails_where_a_share_overflows() {
    let locks = vec![1u64, 1 << 40];
    let result = distribute_page(1 << 40, &locks, (1 << 40) + 1, 0, 0);
    assert_eq!(result.err(), Some(ErrorCode::MathOverflow));
}

#[test]
fn page_fails_where_the_dust_overflows() {
    let locks = vec![1u64];
    let result = distribute_page(10, &locks, 1, 11, u64::MAX - 9);
    assert_eq!(result.err(), Some(ErrorCode::MathOverflow));
    let page = distribute_page(10, &locks, 1, 11, u64::MAX - 10).unwrap();
    assert_eq!(page.dust_accumulated, u64::MAX);
}

#[test]
fn page_fails_where_the_payouts_overflow() {
    // With a locked total smaller than the locked amounts, the shares can
    // exceed the fee.
    let locks = vec![1u64 << 32, 1u64 << 32];
    let page = distribute_page(1 << 31, &locks, 1, 0, 0);
    assert_eq!(page.err(), Some(ErrorCode::MathOverflow));
}
